//! Flat row forms of the registry's entities, as they cross the
//! reporting boundary: each is the plain-value shape of one entity,
//! with nothing behind it.

use vstd::prelude::*;

verus! {

/// A 64-bit counter as the reporting boundary carries it.
#[derive(Debug, Copy, Clone, PartialEq, Eq, Structural)]
pub struct SqliteU64(pub u64);

/// A cached bytecode image: its reference, manifest and bytes.
#[derive(Debug)]
pub struct Image {
    pub id: i32,
    pub registry: String,
    pub repository: String,
    pub name: String,
    pub tag: Option<String>,
    pub manifest: String,
    pub bytecode: Vec<u8>,
}

/// The flat row of an XDP program's hook fields.
#[derive(Debug)]
pub struct XdpProgramData {
    pub id: u32,
    pub prog_id: u32,
    pub priority: i32,
    pub iface: String,
    pub current_position: u32,
    pub if_index: u32,
    pub attached: bool,
    pub proceed_on: String,
}

/// The flat row of a TC program's hook fields.
#[derive(Debug)]
pub struct TcProgramData {
    pub id: u32,
    pub prog_id: u32,
    pub priority: i32,
    pub iface: String,
    pub current_position: u32,
    pub if_index: u32,
    pub attached: bool,
    pub direction: String,
    pub proceed_on: String,
}

/// The flat row of a tracepoint program's fields.
#[derive(Debug)]
pub struct TracepointProgramData {
    pub id: u32,
    pub prog_id: u32,
    pub name: String,
}

/// The flat row of a kernel probe's fields.
#[derive(Debug)]
pub struct KprobeProgramData {
    pub id: u32,
    pub prog_id: u32,
    pub fn_name: String,
    pub offset: u64,
    pub retprobe: bool,
    pub container_pid: u32,
}

/// The flat row of a user probe's fields.
#[derive(Debug)]
pub struct UprobeProgramData {
    pub id: u32,
    pub prog_id: u32,
    pub fn_name: String,
    pub offset: u64,
    pub retprobe: bool,
    pub container_pid: u32,
    pub pid: u32,
    pub target: String,
}

/// The flat row of a function-entry program's fields.
#[derive(Debug)]
pub struct FentryProgramData {
    pub id: u32,
    pub prog_id: u32,
    pub fn_name: String,
}

/// The flat row of a function-exit program's fields.
#[derive(Debug)]
pub struct FexitProgramData {
    pub id: u32,
    pub prog_id: u32,
    pub fn_name: String,
}

/// One global-data entry of one program.
#[derive(Debug)]
pub struct GlobalData {
    pub id: u32,
    pub prog_id: u32,
    pub key: String,
    pub value: Vec<u8>,
}

/// One metadata entry of one program.
#[derive(Debug)]
pub struct Metadata {
    pub id: u32,
    pub prog_id: u32,
    pub key: String,
    pub value: String,
}

/// One map a program owns, with its kernel id.
#[derive(Debug)]
pub struct MapRecord {
    pub id: u32,
    pub name: String,
    pub bpfman_prog_id: u32,
    pub kernel_map_id: u32,
}

/// One use of a map by a program.
#[derive(Debug)]
pub struct MapsToPrograms {
    pub id: u32,
    pub map_id: u32,
    pub prog_id: u32,
}

} // verus!
