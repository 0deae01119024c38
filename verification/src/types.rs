//! The enums shared with the kernel and the clients, with their
//! integer and string encodings and proofs that each encoding
//! round-trips.

use vstd::prelude::*;

use crate::errors::ParseError;
use vstd::string::StringSliceAdditionalSpecFns;
use vstd::utf8::encode_utf8;

use crate::strutil::{bytes_eq, spec_i32_decimal, spec_u32_decimal, i32_to_string, str_eq, u32_to_string};

verus! {

/// The kind of an eBPF program, matching the kernel's program-type
/// enumeration value for value.
#[derive(Copy, Clone, Debug, Eq, PartialEq, Structural)]
pub enum ProgramType {
    Unspec,
    SocketFilter,
    Probe,
    Tc,
    SchedAct,
    Tracepoint,
    Xdp,
    PerfEvent,
    CgroupSkb,
    CgroupSock,
    LwtIn,
    LwtOut,
    LwtXmit,
    SockOps,
    SkSkb,
    CgroupDevice,
    SkMsg,
    RawTracepoint,
    CgroupSockAddr,
    LwtSeg6Local,
    LircMode2,
    SkReuseport,
    FlowDissector,
    CgroupSysctl,
    RawTracepointWritable,
    CgroupSockopt,
    Tracing,
    StructOps,
    Ext,
    Lsm,
    SkLookup,
    Syscall,
}

/// The kernel integer each program type encodes to.
pub open spec fn spec_program_type_u32(p: ProgramType) -> u32 {
    match p {
        ProgramType::Unspec => 0,
        ProgramType::SocketFilter => 1,
        ProgramType::Probe => 2,
        ProgramType::Tc => 3,
        ProgramType::SchedAct => 4,
        ProgramType::Tracepoint => 5,
        ProgramType::Xdp => 6,
        ProgramType::PerfEvent => 7,
        ProgramType::CgroupSkb => 8,
        ProgramType::CgroupSock => 9,
        ProgramType::LwtIn => 10,
        ProgramType::LwtOut => 11,
        ProgramType::LwtXmit => 12,
        ProgramType::SockOps => 13,
        ProgramType::SkSkb => 14,
        ProgramType::CgroupDevice => 15,
        ProgramType::SkMsg => 16,
        ProgramType::RawTracepoint => 17,
        ProgramType::CgroupSockAddr => 18,
        ProgramType::LwtSeg6Local => 19,
        ProgramType::LircMode2 => 20,
        ProgramType::SkReuseport => 21,
        ProgramType::FlowDissector => 22,
        ProgramType::CgroupSysctl => 23,
        ProgramType::RawTracepointWritable => 24,
        ProgramType::CgroupSockopt => 25,
        ProgramType::Tracing => 26,
        ProgramType::StructOps => 27,
        ProgramType::Ext => 28,
        ProgramType::Lsm => 29,
        ProgramType::SkLookup => 30,
        ProgramType::Syscall => 31,
    }
}

/// The program type, if any, that a kernel integer decodes to.
pub open spec fn spec_program_type_from_u32(v: u32) -> Option<ProgramType> {
    if v == 0 {
        Some(ProgramType::Unspec)
    } else if v == 1 {
        Some(ProgramType::SocketFilter)
    } else if v == 2 {
        Some(ProgramType::Probe)
    } else if v == 3 {
        Some(ProgramType::Tc)
    } else if v == 4 {
        Some(ProgramType::SchedAct)
    } else if v == 5 {
        Some(ProgramType::Tracepoint)
    } else if v == 6 {
        Some(ProgramType::Xdp)
    } else if v == 7 {
        Some(ProgramType::PerfEvent)
    } else if v == 8 {
        Some(ProgramType::CgroupSkb)
    } else if v == 9 {
        Some(ProgramType::CgroupSock)
    } else if v == 10 {
        Some(ProgramType::LwtIn)
    } else if v == 11 {
        Some(ProgramType::LwtOut)
    } else if v == 12 {
        Some(ProgramType::LwtXmit)
    } else if v == 13 {
        Some(ProgramType::SockOps)
    } else if v == 14 {
        Some(ProgramType::SkSkb)
    } else if v == 15 {
        Some(ProgramType::CgroupDevice)
    } else if v == 16 {
        Some(ProgramType::SkMsg)
    } else if v == 17 {
        Some(ProgramType::RawTracepoint)
    } else if v == 18 {
        Some(ProgramType::CgroupSockAddr)
    } else if v == 19 {
        Some(ProgramType::LwtSeg6Local)
    } else if v == 20 {
        Some(ProgramType::LircMode2)
    } else if v == 21 {
        Some(ProgramType::SkReuseport)
    } else if v == 22 {
        Some(ProgramType::FlowDissector)
    } else if v == 23 {
        Some(ProgramType::CgroupSysctl)
    } else if v == 24 {
        Some(ProgramType::RawTracepointWritable)
    } else if v == 25 {
        Some(ProgramType::CgroupSockopt)
    } else if v == 26 {
        Some(ProgramType::Tracing)
    } else if v == 27 {
        Some(ProgramType::StructOps)
    } else if v == 28 {
        Some(ProgramType::Ext)
    } else if v == 29 {
        Some(ProgramType::Lsm)
    } else if v == 30 {
        Some(ProgramType::SkLookup)
    } else if v == 31 {
        Some(ProgramType::Syscall)
    } else {
        None
    }
}

/// The lower-case name each program type encodes to.
pub open spec fn spec_program_type_str(p: ProgramType) -> Seq<char> {
    match p {
        ProgramType::Unspec => "unspec"@,
        ProgramType::SocketFilter => "socket_filter"@,
        ProgramType::Probe => "probe"@,
        ProgramType::Tc => "tc"@,
        ProgramType::SchedAct => "sched_act"@,
        ProgramType::Tracepoint => "tracepoint"@,
        ProgramType::Xdp => "xdp"@,
        ProgramType::PerfEvent => "perf_event"@,
        ProgramType::CgroupSkb => "cgroup_skb"@,
        ProgramType::CgroupSock => "cgroup_sock"@,
        ProgramType::LwtIn => "lwt_in"@,
        ProgramType::LwtOut => "lwt_out"@,
        ProgramType::LwtXmit => "lwt_xmit"@,
        ProgramType::SockOps => "sock_ops"@,
        ProgramType::SkSkb => "sk_skb"@,
        ProgramType::CgroupDevice => "cgroup_device"@,
        ProgramType::SkMsg => "sk_msg"@,
        ProgramType::RawTracepoint => "raw_tracepoint"@,
        ProgramType::CgroupSockAddr => "cgroup_sock_addr"@,
        ProgramType::LwtSeg6Local => "lwt_seg6local"@,
        ProgramType::LircMode2 => "lirc_mode2"@,
        ProgramType::SkReuseport => "sk_reuseport"@,
        ProgramType::FlowDissector => "flow_dissector"@,
        ProgramType::CgroupSysctl => "cgroup_sysctl"@,
        ProgramType::RawTracepointWritable => "raw_tracepoint_writable"@,
        ProgramType::CgroupSockopt => "cgroup_sockopt"@,
        ProgramType::Tracing => "tracing"@,
        ProgramType::StructOps => "struct_ops"@,
        ProgramType::Ext => "ext"@,
        ProgramType::Lsm => "lsm"@,
        ProgramType::SkLookup => "sk_lookup"@,
        ProgramType::Syscall => "syscall"@,
    }
}

/// The program type, if any, that a name decodes to.
pub open spec fn spec_program_type_from_str(s: Seq<char>) -> Option<ProgramType> {
    if s == "unspec"@ {
        Some(ProgramType::Unspec)
    } else if s == "socket_filter"@ {
        Some(ProgramType::SocketFilter)
    } else if s == "probe"@ {
        Some(ProgramType::Probe)
    } else if s == "tc"@ {
        Some(ProgramType::Tc)
    } else if s == "sched_act"@ {
        Some(ProgramType::SchedAct)
    } else if s == "tracepoint"@ {
        Some(ProgramType::Tracepoint)
    } else if s == "xdp"@ {
        Some(ProgramType::Xdp)
    } else if s == "perf_event"@ {
        Some(ProgramType::PerfEvent)
    } else if s == "cgroup_skb"@ {
        Some(ProgramType::CgroupSkb)
    } else if s == "cgroup_sock"@ {
        Some(ProgramType::CgroupSock)
    } else if s == "lwt_in"@ {
        Some(ProgramType::LwtIn)
    } else if s == "lwt_out"@ {
        Some(ProgramType::LwtOut)
    } else if s == "lwt_xmit"@ {
        Some(ProgramType::LwtXmit)
    } else if s == "sock_ops"@ {
        Some(ProgramType::SockOps)
    } else if s == "sk_skb"@ {
        Some(ProgramType::SkSkb)
    } else if s == "cgroup_device"@ {
        Some(ProgramType::CgroupDevice)
    } else if s == "sk_msg"@ {
        Some(ProgramType::SkMsg)
    } else if s == "raw_tracepoint"@ {
        Some(ProgramType::RawTracepoint)
    } else if s == "cgroup_sock_addr"@ {
        Some(ProgramType::CgroupSockAddr)
    } else if s == "lwt_seg6local"@ {
        Some(ProgramType::LwtSeg6Local)
    } else if s == "lirc_mode2"@ {
        Some(ProgramType::LircMode2)
    } else if s == "sk_reuseport"@ {
        Some(ProgramType::SkReuseport)
    } else if s == "flow_dissector"@ {
        Some(ProgramType::FlowDissector)
    } else if s == "cgroup_sysctl"@ {
        Some(ProgramType::CgroupSysctl)
    } else if s == "raw_tracepoint_writable"@ {
        Some(ProgramType::RawTracepointWritable)
    } else if s == "cgroup_sockopt"@ {
        Some(ProgramType::CgroupSockopt)
    } else if s == "tracing"@ {
        Some(ProgramType::Tracing)
    } else if s == "struct_ops"@ {
        Some(ProgramType::StructOps)
    } else if s == "ext"@ {
        Some(ProgramType::Ext)
    } else if s == "lsm"@ {
        Some(ProgramType::Lsm)
    } else if s == "sk_lookup"@ {
        Some(ProgramType::SkLookup)
    } else if s == "syscall"@ {
        Some(ProgramType::Syscall)
    } else {
        None
    }
}

impl ProgramType {
    /// The kernel integer encoding of this program type.
    pub fn to_u32(&self) -> (r: u32)
        ensures
            r == spec_program_type_u32(*self),
    {
        match self {
            ProgramType::Unspec => 0,
            ProgramType::SocketFilter => 1,
            ProgramType::Probe => 2,
            ProgramType::Tc => 3,
            ProgramType::SchedAct => 4,
            ProgramType::Tracepoint => 5,
            ProgramType::Xdp => 6,
            ProgramType::PerfEvent => 7,
            ProgramType::CgroupSkb => 8,
            ProgramType::CgroupSock => 9,
            ProgramType::LwtIn => 10,
            ProgramType::LwtOut => 11,
            ProgramType::LwtXmit => 12,
            ProgramType::SockOps => 13,
            ProgramType::SkSkb => 14,
            ProgramType::CgroupDevice => 15,
            ProgramType::SkMsg => 16,
            ProgramType::RawTracepoint => 17,
            ProgramType::CgroupSockAddr => 18,
            ProgramType::LwtSeg6Local => 19,
            ProgramType::LircMode2 => 20,
            ProgramType::SkReuseport => 21,
            ProgramType::FlowDissector => 22,
            ProgramType::CgroupSysctl => 23,
            ProgramType::RawTracepointWritable => 24,
            ProgramType::CgroupSockopt => 25,
            ProgramType::Tracing => 26,
            ProgramType::StructOps => 27,
            ProgramType::Ext => 28,
            ProgramType::Lsm => 29,
            ProgramType::SkLookup => 30,
            ProgramType::Syscall => 31,
        }
    }

    /// Decodes a program type from its kernel integer encoding;
    /// integers above the highest kernel value are rejected.
    pub fn from_u32(v: u32) -> (r: Result<ProgramType, ParseError>)
        ensures
            spec_program_type_from_u32(v) matches Some(p) ==> r == Ok::<ProgramType, ParseError>(
                p,
            ),
            spec_program_type_from_u32(v) is None ==> (r matches Err(
                ParseError::InvalidProgramType { program },
            ) && program@ == spec_u32_decimal(v)),
    {
        match v {
            0 => Ok(ProgramType::Unspec),
            1 => Ok(ProgramType::SocketFilter),
            2 => Ok(ProgramType::Probe),
            3 => Ok(ProgramType::Tc),
            4 => Ok(ProgramType::SchedAct),
            5 => Ok(ProgramType::Tracepoint),
            6 => Ok(ProgramType::Xdp),
            7 => Ok(ProgramType::PerfEvent),
            8 => Ok(ProgramType::CgroupSkb),
            9 => Ok(ProgramType::CgroupSock),
            10 => Ok(ProgramType::LwtIn),
            11 => Ok(ProgramType::LwtOut),
            12 => Ok(ProgramType::LwtXmit),
            13 => Ok(ProgramType::SockOps),
            14 => Ok(ProgramType::SkSkb),
            15 => Ok(ProgramType::CgroupDevice),
            16 => Ok(ProgramType::SkMsg),
            17 => Ok(ProgramType::RawTracepoint),
            18 => Ok(ProgramType::CgroupSockAddr),
            19 => Ok(ProgramType::LwtSeg6Local),
            20 => Ok(ProgramType::LircMode2),
            21 => Ok(ProgramType::SkReuseport),
            22 => Ok(ProgramType::FlowDissector),
            23 => Ok(ProgramType::CgroupSysctl),
            24 => Ok(ProgramType::RawTracepointWritable),
            25 => Ok(ProgramType::CgroupSockopt),
            26 => Ok(ProgramType::Tracing),
            27 => Ok(ProgramType::StructOps),
            28 => Ok(ProgramType::Ext),
            29 => Ok(ProgramType::Lsm),
            30 => Ok(ProgramType::SkLookup),
            31 => Ok(ProgramType::Syscall),
            _ => Err(ParseError::InvalidProgramType { program: u32_to_string(v) }),
        }
    }

    /// The lower-case name of this program type.
    pub fn as_str(&self) -> (r: &'static str)
        ensures
            r@ == spec_program_type_str(*self),
    {
        match self {
            ProgramType::Unspec => "unspec",
            ProgramType::SocketFilter => "socket_filter",
            ProgramType::Probe => "probe",
            ProgramType::Tc => "tc",
            ProgramType::SchedAct => "sched_act",
            ProgramType::Tracepoint => "tracepoint",
            ProgramType::Xdp => "xdp",
            ProgramType::PerfEvent => "perf_event",
            ProgramType::CgroupSkb => "cgroup_skb",
            ProgramType::CgroupSock => "cgroup_sock",
            ProgramType::LwtIn => "lwt_in",
            ProgramType::LwtOut => "lwt_out",
            ProgramType::LwtXmit => "lwt_xmit",
            ProgramType::SockOps => "sock_ops",
            ProgramType::SkSkb => "sk_skb",
            ProgramType::CgroupDevice => "cgroup_device",
            ProgramType::SkMsg => "sk_msg",
            ProgramType::RawTracepoint => "raw_tracepoint",
            ProgramType::CgroupSockAddr => "cgroup_sock_addr",
            ProgramType::LwtSeg6Local => "lwt_seg6local",
            ProgramType::LircMode2 => "lirc_mode2",
            ProgramType::SkReuseport => "sk_reuseport",
            ProgramType::FlowDissector => "flow_dissector",
            ProgramType::CgroupSysctl => "cgroup_sysctl",
            ProgramType::RawTracepointWritable => "raw_tracepoint_writable",
            ProgramType::CgroupSockopt => "cgroup_sockopt",
            ProgramType::Tracing => "tracing",
            ProgramType::StructOps => "struct_ops",
            ProgramType::Ext => "ext",
            ProgramType::Lsm => "lsm",
            ProgramType::SkLookup => "sk_lookup",
            ProgramType::Syscall => "syscall",
        }
    }

    /// Decodes a program type from its lower-case name.
    pub fn from_str(s: &str) -> (r: Result<ProgramType, ParseError>)
        ensures
            spec_program_type_from_str(s@) matches Some(p) ==> r == Ok::<
                ProgramType,
                ParseError,
            >(p),
            spec_program_type_from_str(s@) is None ==> (r matches Err(
                ParseError::InvalidProgramType { program },
            ) && program@ == s@),
    {
        if str_eq(s, "unspec") {
            Ok(ProgramType::Unspec)
        } else if str_eq(s, "socket_filter") {
            Ok(ProgramType::SocketFilter)
        } else if str_eq(s, "probe") {
            Ok(ProgramType::Probe)
        } else if str_eq(s, "tc") {
            Ok(ProgramType::Tc)
        } else if str_eq(s, "sched_act") {
            Ok(ProgramType::SchedAct)
        } else if str_eq(s, "tracepoint") {
            Ok(ProgramType::Tracepoint)
        } else if str_eq(s, "xdp") {
            Ok(ProgramType::Xdp)
        } else if str_eq(s, "perf_event") {
            Ok(ProgramType::PerfEvent)
        } else if str_eq(s, "cgroup_skb") {
            Ok(ProgramType::CgroupSkb)
        } else if str_eq(s, "cgroup_sock") {
            Ok(ProgramType::CgroupSock)
        } else if str_eq(s, "lwt_in") {
            Ok(ProgramType::LwtIn)
        } else if str_eq(s, "lwt_out") {
            Ok(ProgramType::LwtOut)
        } else if str_eq(s, "lwt_xmit") {
            Ok(ProgramType::LwtXmit)
        } else if str_eq(s, "sock_ops") {
            Ok(ProgramType::SockOps)
        } else if str_eq(s, "sk_skb") {
            Ok(ProgramType::SkSkb)
        } else if str_eq(s, "cgroup_device") {
            Ok(ProgramType::CgroupDevice)
        } else if str_eq(s, "sk_msg") {
            Ok(ProgramType::SkMsg)
        } else if str_eq(s, "raw_tracepoint") {
            Ok(ProgramType::RawTracepoint)
        } else if str_eq(s, "cgroup_sock_addr") {
            Ok(ProgramType::CgroupSockAddr)
        } else if str_eq(s, "lwt_seg6local") {
            Ok(ProgramType::LwtSeg6Local)
        } else if str_eq(s, "lirc_mode2") {
            Ok(ProgramType::LircMode2)
        } else if str_eq(s, "sk_reuseport") {
            Ok(ProgramType::SkReuseport)
        } else if str_eq(s, "flow_dissector") {
            Ok(ProgramType::FlowDissector)
        } else if str_eq(s, "cgroup_sysctl") {
            Ok(ProgramType::CgroupSysctl)
        } else if str_eq(s, "raw_tracepoint_writable") {
            Ok(ProgramType::RawTracepointWritable)
        } else if str_eq(s, "cgroup_sockopt") {
            Ok(ProgramType::CgroupSockopt)
        } else if str_eq(s, "tracing") {
            Ok(ProgramType::Tracing)
        } else if str_eq(s, "struct_ops") {
            Ok(ProgramType::StructOps)
        } else if str_eq(s, "ext") {
            Ok(ProgramType::Ext)
        } else if str_eq(s, "lsm") {
            Ok(ProgramType::Lsm)
        } else if str_eq(s, "sk_lookup") {
            Ok(ProgramType::SkLookup)
        } else if str_eq(s, "syscall") {
            Ok(ProgramType::Syscall)
        } else {
            Err(ParseError::InvalidProgramType { program: String::from_str(s) })
        }
    }
}

/// Every program type round-trips through its integer encoding, and
/// every integer that decodes at all re-encodes to itself.
pub proof fn lemma_program_type_u32_round_trip(p: ProgramType, v: u32)
    ensures
        spec_program_type_from_u32(spec_program_type_u32(p)) == Some(p),
        spec_program_type_from_u32(v) matches Some(q) ==> spec_program_type_u32(q) == v,
{
}

/// Every program type round-trips through its string encoding, and
/// every name that decodes at all re-encodes to itself.
#[verifier::rlimit(100)]
pub proof fn lemma_program_type_str_round_trip(p: ProgramType, s: Seq<char>)
    ensures
        spec_program_type_from_str(spec_program_type_str(p)) == Some(p),
        spec_program_type_from_str(s) matches Some(q) ==> spec_program_type_str(q) == s,
{
    reveal_strlit("unspec");
    reveal_strlit("socket_filter");
    reveal_strlit("probe");
    reveal_strlit("tc");
    reveal_strlit("sched_act");
    reveal_strlit("tracepoint");
    reveal_strlit("xdp");
    reveal_strlit("perf_event");
    reveal_strlit("cgroup_skb");
    reveal_strlit("cgroup_sock");
    reveal_strlit("lwt_in");
    reveal_strlit("lwt_out");
    reveal_strlit("lwt_xmit");
    reveal_strlit("sock_ops");
    reveal_strlit("sk_skb");
    reveal_strlit("cgroup_device");
    reveal_strlit("sk_msg");
    reveal_strlit("raw_tracepoint");
    reveal_strlit("cgroup_sock_addr");
    reveal_strlit("lwt_seg6local");
    reveal_strlit("lirc_mode2");
    reveal_strlit("sk_reuseport");
    reveal_strlit("flow_dissector");
    reveal_strlit("cgroup_sysctl");
    reveal_strlit("raw_tracepoint_writable");
    reveal_strlit("cgroup_sockopt");
    reveal_strlit("tracing");
    reveal_strlit("struct_ops");
    reveal_strlit("ext");
    reveal_strlit("lsm");
    reveal_strlit("sk_lookup");
    reveal_strlit("syscall");
    assert(("unspec"@).len() == 6);
    assert(("socket_filter"@).len() == 13);
    assert(("probe"@).len() == 5);
    assert(("tc"@).len() == 2);
    assert(("sched_act"@).len() == 9);
    assert(("tracepoint"@).len() == 10);
    assert(("xdp"@).len() == 3);
    assert(("perf_event"@).len() == 10);
    assert(("cgroup_skb"@).len() == 10);
    assert(("cgroup_sock"@).len() == 11);
    assert(("lwt_in"@).len() == 6);
    assert(("lwt_out"@).len() == 7);
    assert(("lwt_xmit"@).len() == 8);
    assert(("sock_ops"@).len() == 8);
    assert(("sk_skb"@).len() == 6);
    assert(("cgroup_device"@).len() == 13);
    assert(("sk_msg"@).len() == 6);
    assert(("raw_tracepoint"@).len() == 14);
    assert(("cgroup_sock_addr"@).len() == 16);
    assert(("lwt_seg6local"@).len() == 13);
    assert(("lirc_mode2"@).len() == 10);
    assert(("sk_reuseport"@).len() == 12);
    assert(("flow_dissector"@).len() == 14);
    assert(("cgroup_sysctl"@).len() == 13);
    assert(("raw_tracepoint_writable"@).len() == 23);
    assert(("cgroup_sockopt"@).len() == 14);
    assert(("tracing"@).len() == 7);
    assert(("struct_ops"@).len() == 10);
    assert(("ext"@).len() == 3);
    assert(("lsm"@).len() == 3);
    assert(("sk_lookup"@).len() == 9);
    assert(("syscall"@).len() == 7);
    assert(("perf_event"@)[0] == 'p');
    assert(("tracepoint"@)[0] == 't');
    assert(("cgroup_skb"@)[0] == 'c');
    assert(("lwt_in"@)[0] == 'l');
    assert(("unspec"@)[0] == 'u');
    assert(("sock_ops"@)[0] == 's');
    assert(("lwt_xmit"@)[0] == 'l');
    assert(("sk_skb"@)[0] == 's');
    assert(("cgroup_device"@)[0] == 'c');
    assert(("socket_filter"@)[0] == 's');
    assert(("sk_msg"@)[0] == 's');
    assert(("sk_msg"@)[3] == 'm');
    assert(("sk_skb"@)[3] == 's');
    assert(("lwt_seg6local"@)[0] == 'l');
    assert(("lirc_mode2"@)[0] == 'l');
    assert(("flow_dissector"@)[0] == 'f');
    assert(("raw_tracepoint"@)[0] == 'r');
    assert(("cgroup_sysctl"@)[0] == 'c');
    assert(("cgroup_sysctl"@)[7] == 's');
    assert(("cgroup_device"@)[7] == 'd');
    assert(("cgroup_sockopt"@)[0] == 'c');
    assert(("tracing"@)[0] == 't');
    assert(("lwt_out"@)[0] == 'l');
    assert(("struct_ops"@)[0] == 's');
    assert(("ext"@)[0] == 'e');
    assert(("xdp"@)[0] == 'x');
    assert(("lsm"@)[0] == 'l');
    assert(("sk_lookup"@)[1] == 'k');
    assert(("sched_act"@)[1] == 'c');
    assert(("syscall"@)[0] == 's');
    assert("socket_filter"@ != "unspec"@);
    assert("probe"@ != "unspec"@);
    assert("probe"@ != "socket_filter"@);
    assert("tc"@ != "unspec"@);
    assert("tc"@ != "socket_filter"@);
    assert("tc"@ != "probe"@);
    assert("sched_act"@ != "unspec"@);
    assert("sched_act"@ != "socket_filter"@);
    assert("sched_act"@ != "probe"@);
    assert("sched_act"@ != "tc"@);
    assert("tracepoint"@ != "unspec"@);
    assert("tracepoint"@ != "socket_filter"@);
    assert("tracepoint"@ != "probe"@);
    assert("tracepoint"@ != "tc"@);
    assert("tracepoint"@ != "sched_act"@);
    assert("xdp"@ != "unspec"@);
    assert("xdp"@ != "socket_filter"@);
    assert("xdp"@ != "probe"@);
    assert("xdp"@ != "tc"@);
    assert("xdp"@ != "sched_act"@);
    assert("xdp"@ != "tracepoint"@);
    assert("perf_event"@ != "unspec"@);
    assert("perf_event"@ != "socket_filter"@);
    assert("perf_event"@ != "probe"@);
    assert("perf_event"@ != "tc"@);
    assert("perf_event"@ != "sched_act"@);
    assert("perf_event"@ != "tracepoint"@);
    assert("perf_event"@ != "xdp"@);
    assert("cgroup_skb"@ != "unspec"@);
    assert("cgroup_skb"@ != "socket_filter"@);
    assert("cgroup_skb"@ != "probe"@);
    assert("cgroup_skb"@ != "tc"@);
    assert("cgroup_skb"@ != "sched_act"@);
    assert("cgroup_skb"@ != "tracepoint"@);
    assert("cgroup_skb"@ != "xdp"@);
    assert("cgroup_skb"@ != "perf_event"@);
    assert("cgroup_sock"@ != "unspec"@);
    assert("cgroup_sock"@ != "socket_filter"@);
    assert("cgroup_sock"@ != "probe"@);
    assert("cgroup_sock"@ != "tc"@);
    assert("cgroup_sock"@ != "sched_act"@);
    assert("cgroup_sock"@ != "tracepoint"@);
    assert("cgroup_sock"@ != "xdp"@);
    assert("cgroup_sock"@ != "perf_event"@);
    assert("cgroup_sock"@ != "cgroup_skb"@);
    assert("lwt_in"@ != "unspec"@);
    assert("lwt_in"@ != "socket_filter"@);
    assert("lwt_in"@ != "probe"@);
    assert("lwt_in"@ != "tc"@);
    assert("lwt_in"@ != "sched_act"@);
    assert("lwt_in"@ != "tracepoint"@);
    assert("lwt_in"@ != "xdp"@);
    assert("lwt_in"@ != "perf_event"@);
    assert("lwt_in"@ != "cgroup_skb"@);
    assert("lwt_in"@ != "cgroup_sock"@);
    assert("lwt_out"@ != "unspec"@);
    assert("lwt_out"@ != "socket_filter"@);
    assert("lwt_out"@ != "probe"@);
    assert("lwt_out"@ != "tc"@);
    assert("lwt_out"@ != "sched_act"@);
    assert("lwt_out"@ != "tracepoint"@);
    assert("lwt_out"@ != "xdp"@);
    assert("lwt_out"@ != "perf_event"@);
    assert("lwt_out"@ != "cgroup_skb"@);
    assert("lwt_out"@ != "cgroup_sock"@);
    assert("lwt_out"@ != "lwt_in"@);
    assert("lwt_xmit"@ != "unspec"@);
    assert("lwt_xmit"@ != "socket_filter"@);
    assert("lwt_xmit"@ != "probe"@);
    assert("lwt_xmit"@ != "tc"@);
    assert("lwt_xmit"@ != "sched_act"@);
    assert("lwt_xmit"@ != "tracepoint"@);
    assert("lwt_xmit"@ != "xdp"@);
    assert("lwt_xmit"@ != "perf_event"@);
    assert("lwt_xmit"@ != "cgroup_skb"@);
    assert("lwt_xmit"@ != "cgroup_sock"@);
    assert("lwt_xmit"@ != "lwt_in"@);
    assert("lwt_xmit"@ != "lwt_out"@);
    assert("sock_ops"@ != "unspec"@);
    assert("sock_ops"@ != "socket_filter"@);
    assert("sock_ops"@ != "probe"@);
    assert("sock_ops"@ != "tc"@);
    assert("sock_ops"@ != "sched_act"@);
    assert("sock_ops"@ != "tracepoint"@);
    assert("sock_ops"@ != "xdp"@);
    assert("sock_ops"@ != "perf_event"@);
    assert("sock_ops"@ != "cgroup_skb"@);
    assert("sock_ops"@ != "cgroup_sock"@);
    assert("sock_ops"@ != "lwt_in"@);
    assert("sock_ops"@ != "lwt_out"@);
    assert("sock_ops"@ != "lwt_xmit"@);
    assert("sk_skb"@ != "unspec"@);
    assert("sk_skb"@ != "socket_filter"@);
    assert("sk_skb"@ != "probe"@);
    assert("sk_skb"@ != "tc"@);
    assert("sk_skb"@ != "sched_act"@);
    assert("sk_skb"@ != "tracepoint"@);
    assert("sk_skb"@ != "xdp"@);
    assert("sk_skb"@ != "perf_event"@);
    assert("sk_skb"@ != "cgroup_skb"@);
    assert("sk_skb"@ != "cgroup_sock"@);
    assert("sk_skb"@ != "lwt_in"@);
    assert("sk_skb"@ != "lwt_out"@);
    assert("sk_skb"@ != "lwt_xmit"@);
    assert("sk_skb"@ != "sock_ops"@);
    assert("cgroup_device"@ != "unspec"@);
    assert("cgroup_device"@ != "socket_filter"@);
    assert("cgroup_device"@ != "probe"@);
    assert("cgroup_device"@ != "tc"@);
    assert("cgroup_device"@ != "sched_act"@);
    assert("cgroup_device"@ != "tracepoint"@);
    assert("cgroup_device"@ != "xdp"@);
    assert("cgroup_device"@ != "perf_event"@);
    assert("cgroup_device"@ != "cgroup_skb"@);
    assert("cgroup_device"@ != "cgroup_sock"@);
    assert("cgroup_device"@ != "lwt_in"@);
    assert("cgroup_device"@ != "lwt_out"@);
    assert("cgroup_device"@ != "lwt_xmit"@);
    assert("cgroup_device"@ != "sock_ops"@);
    assert("cgroup_device"@ != "sk_skb"@);
    assert("sk_msg"@ != "unspec"@);
    assert("sk_msg"@ != "socket_filter"@);
    assert("sk_msg"@ != "probe"@);
    assert("sk_msg"@ != "tc"@);
    assert("sk_msg"@ != "sched_act"@);
    assert("sk_msg"@ != "tracepoint"@);
    assert("sk_msg"@ != "xdp"@);
    assert("sk_msg"@ != "perf_event"@);
    assert("sk_msg"@ != "cgroup_skb"@);
    assert("sk_msg"@ != "cgroup_sock"@);
    assert("sk_msg"@ != "lwt_in"@);
    assert("sk_msg"@ != "lwt_out"@);
    assert("sk_msg"@ != "lwt_xmit"@);
    assert("sk_msg"@ != "sock_ops"@);
    assert("sk_msg"@ != "sk_skb"@);
    assert("sk_msg"@ != "cgroup_device"@);
    assert("raw_tracepoint"@ != "unspec"@);
    assert("raw_tracepoint"@ != "socket_filter"@);
    assert("raw_tracepoint"@ != "probe"@);
    assert("raw_tracepoint"@ != "tc"@);
    assert("raw_tracepoint"@ != "sched_act"@);
    assert("raw_tracepoint"@ != "tracepoint"@);
    assert("raw_tracepoint"@ != "xdp"@);
    assert("raw_tracepoint"@ != "perf_event"@);
    assert("raw_tracepoint"@ != "cgroup_skb"@);
    assert("raw_tracepoint"@ != "cgroup_sock"@);
    assert("raw_tracepoint"@ != "lwt_in"@);
    assert("raw_tracepoint"@ != "lwt_out"@);
    assert("raw_tracepoint"@ != "lwt_xmit"@);
    assert("raw_tracepoint"@ != "sock_ops"@);
    assert("raw_tracepoint"@ != "sk_skb"@);
    assert("raw_tracepoint"@ != "cgroup_device"@);
    assert("raw_tracepoint"@ != "sk_msg"@);
    assert("cgroup_sock_addr"@ != "unspec"@);
    assert("cgroup_sock_addr"@ != "socket_filter"@);
    assert("cgroup_sock_addr"@ != "probe"@);
    assert("cgroup_sock_addr"@ != "tc"@);
    assert("cgroup_sock_addr"@ != "sched_act"@);
    assert("cgroup_sock_addr"@ != "tracepoint"@);
    assert("cgroup_sock_addr"@ != "xdp"@);
    assert("cgroup_sock_addr"@ != "perf_event"@);
    assert("cgroup_sock_addr"@ != "cgroup_skb"@);
    assert("cgroup_sock_addr"@ != "cgroup_sock"@);
    assert("cgroup_sock_addr"@ != "lwt_in"@);
    assert("cgroup_sock_addr"@ != "lwt_out"@);
    assert("cgroup_sock_addr"@ != "lwt_xmit"@);
    assert("cgroup_sock_addr"@ != "sock_ops"@);
    assert("cgroup_sock_addr"@ != "sk_skb"@);
    assert("cgroup_sock_addr"@ != "cgroup_device"@);
    assert("cgroup_sock_addr"@ != "sk_msg"@);
    assert("cgroup_sock_addr"@ != "raw_tracepoint"@);
    assert("lwt_seg6local"@ != "unspec"@);
    assert("lwt_seg6local"@ != "socket_filter"@);
    assert("lwt_seg6local"@ != "probe"@);
    assert("lwt_seg6local"@ != "tc"@);
    assert("lwt_seg6local"@ != "sched_act"@);
    assert("lwt_seg6local"@ != "tracepoint"@);
    assert("lwt_seg6local"@ != "xdp"@);
    assert("lwt_seg6local"@ != "perf_event"@);
    assert("lwt_seg6local"@ != "cgroup_skb"@);
    assert("lwt_seg6local"@ != "cgroup_sock"@);
    assert("lwt_seg6local"@ != "lwt_in"@);
    assert("lwt_seg6local"@ != "lwt_out"@);
    assert("lwt_seg6local"@ != "lwt_xmit"@);
    assert("lwt_seg6local"@ != "sock_ops"@);
    assert("lwt_seg6local"@ != "sk_skb"@);
    assert("lwt_seg6local"@ != "cgroup_device"@);
    assert("lwt_seg6local"@ != "sk_msg"@);
    assert("lwt_seg6local"@ != "raw_tracepoint"@);
    assert("lwt_seg6local"@ != "cgroup_sock_addr"@);
    assert("lirc_mode2"@ != "unspec"@);
    assert("lirc_mode2"@ != "socket_filter"@);
    assert("lirc_mode2"@ != "probe"@);
    assert("lirc_mode2"@ != "tc"@);
    assert("lirc_mode2"@ != "sched_act"@);
    assert("lirc_mode2"@ != "tracepoint"@);
    assert("lirc_mode2"@ != "xdp"@);
    assert("lirc_mode2"@ != "perf_event"@);
    assert("lirc_mode2"@ != "cgroup_skb"@);
    assert("lirc_mode2"@ != "cgroup_sock"@);
    assert("lirc_mode2"@ != "lwt_in"@);
    assert("lirc_mode2"@ != "lwt_out"@);
    assert("lirc_mode2"@ != "lwt_xmit"@);
    assert("lirc_mode2"@ != "sock_ops"@);
    assert("lirc_mode2"@ != "sk_skb"@);
    assert("lirc_mode2"@ != "cgroup_device"@);
    assert("lirc_mode2"@ != "sk_msg"@);
    assert("lirc_mode2"@ != "raw_tracepoint"@);
    assert("lirc_mode2"@ != "cgroup_sock_addr"@);
    assert("lirc_mode2"@ != "lwt_seg6local"@);
    assert("sk_reuseport"@ != "unspec"@);
    assert("sk_reuseport"@ != "socket_filter"@);
    assert("sk_reuseport"@ != "probe"@);
    assert("sk_reuseport"@ != "tc"@);
    assert("sk_reuseport"@ != "sched_act"@);
    assert("sk_reuseport"@ != "tracepoint"@);
    assert("sk_reuseport"@ != "xdp"@);
    assert("sk_reuseport"@ != "perf_event"@);
    assert("sk_reuseport"@ != "cgroup_skb"@);
    assert("sk_reuseport"@ != "cgroup_sock"@);
    assert("sk_reuseport"@ != "lwt_in"@);
    assert("sk_reuseport"@ != "lwt_out"@);
    assert("sk_reuseport"@ != "lwt_xmit"@);
    assert("sk_reuseport"@ != "sock_ops"@);
    assert("sk_reuseport"@ != "sk_skb"@);
    assert("sk_reuseport"@ != "cgroup_device"@);
    assert("sk_reuseport"@ != "sk_msg"@);
    assert("sk_reuseport"@ != "raw_tracepoint"@);
    assert("sk_reuseport"@ != "cgroup_sock_addr"@);
    assert("sk_reuseport"@ != "lwt_seg6local"@);
    assert("sk_reuseport"@ != "lirc_mode2"@);
    assert("flow_dissector"@ != "unspec"@);
    assert("flow_dissector"@ != "socket_filter"@);
    assert("flow_dissector"@ != "probe"@);
    assert("flow_dissector"@ != "tc"@);
    assert("flow_dissector"@ != "sched_act"@);
    assert("flow_dissector"@ != "tracepoint"@);
    assert("flow_dissector"@ != "xdp"@);
    assert("flow_dissector"@ != "perf_event"@);
    assert("flow_dissector"@ != "cgroup_skb"@);
    assert("flow_dissector"@ != "cgroup_sock"@);
    assert("flow_dissector"@ != "lwt_in"@);
    assert("flow_dissector"@ != "lwt_out"@);
    assert("flow_dissector"@ != "lwt_xmit"@);
    assert("flow_dissector"@ != "sock_ops"@);
    assert("flow_dissector"@ != "sk_skb"@);
    assert("flow_dissector"@ != "cgroup_device"@);
    assert("flow_dissector"@ != "sk_msg"@);
    assert("flow_dissector"@ != "raw_tracepoint"@);
    assert("flow_dissector"@ != "cgroup_sock_addr"@);
    assert("flow_dissector"@ != "lwt_seg6local"@);
    assert("flow_dissector"@ != "lirc_mode2"@);
    assert("flow_dissector"@ != "sk_reuseport"@);
    assert("cgroup_sysctl"@ != "unspec"@);
    assert("cgroup_sysctl"@ != "socket_filter"@);
    assert("cgroup_sysctl"@ != "probe"@);
    assert("cgroup_sysctl"@ != "tc"@);
    assert("cgroup_sysctl"@ != "sched_act"@);
    assert("cgroup_sysctl"@ != "tracepoint"@);
    assert("cgroup_sysctl"@ != "xdp"@);
    assert("cgroup_sysctl"@ != "perf_event"@);
    assert("cgroup_sysctl"@ != "cgroup_skb"@);
    assert("cgroup_sysctl"@ != "cgroup_sock"@);
    assert("cgroup_sysctl"@ != "lwt_in"@);
    assert("cgroup_sysctl"@ != "lwt_out"@);
    assert("cgroup_sysctl"@ != "lwt_xmit"@);
    assert("cgroup_sysctl"@ != "sock_ops"@);
    assert("cgroup_sysctl"@ != "sk_skb"@);
    assert("cgroup_sysctl"@ != "cgroup_device"@);
    assert("cgroup_sysctl"@ != "sk_msg"@);
    assert("cgroup_sysctl"@ != "raw_tracepoint"@);
    assert("cgroup_sysctl"@ != "cgroup_sock_addr"@);
    assert("cgroup_sysctl"@ != "lwt_seg6local"@);
    assert("cgroup_sysctl"@ != "lirc_mode2"@);
    assert("cgroup_sysctl"@ != "sk_reuseport"@);
    assert("cgroup_sysctl"@ != "flow_dissector"@);
    assert("raw_tracepoint_writable"@ != "unspec"@);
    assert("raw_tracepoint_writable"@ != "socket_filter"@);
    assert("raw_tracepoint_writable"@ != "probe"@);
    assert("raw_tracepoint_writable"@ != "tc"@);
    assert("raw_tracepoint_writable"@ != "sched_act"@);
    assert("raw_tracepoint_writable"@ != "tracepoint"@);
    assert("raw_tracepoint_writable"@ != "xdp"@);
    assert("raw_tracepoint_writable"@ != "perf_event"@);
    assert("raw_tracepoint_writable"@ != "cgroup_skb"@);
    assert("raw_tracepoint_writable"@ != "cgroup_sock"@);
    assert("raw_tracepoint_writable"@ != "lwt_in"@);
    assert("raw_tracepoint_writable"@ != "lwt_out"@);
    assert("raw_tracepoint_writable"@ != "lwt_xmit"@);
    assert("raw_tracepoint_writable"@ != "sock_ops"@);
    assert("raw_tracepoint_writable"@ != "sk_skb"@);
    assert("raw_tracepoint_writable"@ != "cgroup_device"@);
    assert("raw_tracepoint_writable"@ != "sk_msg"@);
    assert("raw_tracepoint_writable"@ != "raw_tracepoint"@);
    assert("raw_tracepoint_writable"@ != "cgroup_sock_addr"@);
    assert("raw_tracepoint_writable"@ != "lwt_seg6local"@);
    assert("raw_tracepoint_writable"@ != "lirc_mode2"@);
    assert("raw_tracepoint_writable"@ != "sk_reuseport"@);
    assert("raw_tracepoint_writable"@ != "flow_dissector"@);
    assert("raw_tracepoint_writable"@ != "cgroup_sysctl"@);
    assert("cgroup_sockopt"@ != "unspec"@);
    assert("cgroup_sockopt"@ != "socket_filter"@);
    assert("cgroup_sockopt"@ != "probe"@);
    assert("cgroup_sockopt"@ != "tc"@);
    assert("cgroup_sockopt"@ != "sched_act"@);
    assert("cgroup_sockopt"@ != "tracepoint"@);
    assert("cgroup_sockopt"@ != "xdp"@);
    assert("cgroup_sockopt"@ != "perf_event"@);
    assert("cgroup_sockopt"@ != "cgroup_skb"@);
    assert("cgroup_sockopt"@ != "cgroup_sock"@);
    assert("cgroup_sockopt"@ != "lwt_in"@);
    assert("cgroup_sockopt"@ != "lwt_out"@);
    assert("cgroup_sockopt"@ != "lwt_xmit"@);
    assert("cgroup_sockopt"@ != "sock_ops"@);
    assert("cgroup_sockopt"@ != "sk_skb"@);
    assert("cgroup_sockopt"@ != "cgroup_device"@);
    assert("cgroup_sockopt"@ != "sk_msg"@);
    assert("cgroup_sockopt"@ != "raw_tracepoint"@);
    assert("cgroup_sockopt"@ != "cgroup_sock_addr"@);
    assert("cgroup_sockopt"@ != "lwt_seg6local"@);
    assert("cgroup_sockopt"@ != "lirc_mode2"@);
    assert("cgroup_sockopt"@ != "sk_reuseport"@);
    assert("cgroup_sockopt"@ != "flow_dissector"@);
    assert("cgroup_sockopt"@ != "cgroup_sysctl"@);
    assert("cgroup_sockopt"@ != "raw_tracepoint_writable"@);
    assert("tracing"@ != "unspec"@);
    assert("tracing"@ != "socket_filter"@);
    assert("tracing"@ != "probe"@);
    assert("tracing"@ != "tc"@);
    assert("tracing"@ != "sched_act"@);
    assert("tracing"@ != "tracepoint"@);
    assert("tracing"@ != "xdp"@);
    assert("tracing"@ != "perf_event"@);
    assert("tracing"@ != "cgroup_skb"@);
    assert("tracing"@ != "cgroup_sock"@);
    assert("tracing"@ != "lwt_in"@);
    assert("tracing"@ != "lwt_out"@);
    assert("tracing"@ != "lwt_xmit"@);
    assert("tracing"@ != "sock_ops"@);
    assert("tracing"@ != "sk_skb"@);
    assert("tracing"@ != "cgroup_device"@);
    assert("tracing"@ != "sk_msg"@);
    assert("tracing"@ != "raw_tracepoint"@);
    assert("tracing"@ != "cgroup_sock_addr"@);
    assert("tracing"@ != "lwt_seg6local"@);
    assert("tracing"@ != "lirc_mode2"@);
    assert("tracing"@ != "sk_reuseport"@);
    assert("tracing"@ != "flow_dissector"@);
    assert("tracing"@ != "cgroup_sysctl"@);
    assert("tracing"@ != "raw_tracepoint_writable"@);
    assert("tracing"@ != "cgroup_sockopt"@);
    assert("struct_ops"@ != "unspec"@);
    assert("struct_ops"@ != "socket_filter"@);
    assert("struct_ops"@ != "probe"@);
    assert("struct_ops"@ != "tc"@);
    assert("struct_ops"@ != "sched_act"@);
    assert("struct_ops"@ != "tracepoint"@);
    assert("struct_ops"@ != "xdp"@);
    assert("struct_ops"@ != "perf_event"@);
    assert("struct_ops"@ != "cgroup_skb"@);
    assert("struct_ops"@ != "cgroup_sock"@);
    assert("struct_ops"@ != "lwt_in"@);
    assert("struct_ops"@ != "lwt_out"@);
    assert("struct_ops"@ != "lwt_xmit"@);
    assert("struct_ops"@ != "sock_ops"@);
    assert("struct_ops"@ != "sk_skb"@);
    assert("struct_ops"@ != "cgroup_device"@);
    assert("struct_ops"@ != "sk_msg"@);
    assert("struct_ops"@ != "raw_tracepoint"@);
    assert("struct_ops"@ != "cgroup_sock_addr"@);
    assert("struct_ops"@ != "lwt_seg6local"@);
    assert("struct_ops"@ != "lirc_mode2"@);
    assert("struct_ops"@ != "sk_reuseport"@);
    assert("struct_ops"@ != "flow_dissector"@);
    assert("struct_ops"@ != "cgroup_sysctl"@);
    assert("struct_ops"@ != "raw_tracepoint_writable"@);
    assert("struct_ops"@ != "cgroup_sockopt"@);
    assert("struct_ops"@ != "tracing"@);
    assert("ext"@ != "unspec"@);
    assert("ext"@ != "socket_filter"@);
    assert("ext"@ != "probe"@);
    assert("ext"@ != "tc"@);
    assert("ext"@ != "sched_act"@);
    assert("ext"@ != "tracepoint"@);
    assert("ext"@ != "xdp"@);
    assert("ext"@ != "perf_event"@);
    assert("ext"@ != "cgroup_skb"@);
    assert("ext"@ != "cgroup_sock"@);
    assert("ext"@ != "lwt_in"@);
    assert("ext"@ != "lwt_out"@);
    assert("ext"@ != "lwt_xmit"@);
    assert("ext"@ != "sock_ops"@);
    assert("ext"@ != "sk_skb"@);
    assert("ext"@ != "cgroup_device"@);
    assert("ext"@ != "sk_msg"@);
    assert("ext"@ != "raw_tracepoint"@);
    assert("ext"@ != "cgroup_sock_addr"@);
    assert("ext"@ != "lwt_seg6local"@);
    assert("ext"@ != "lirc_mode2"@);
    assert("ext"@ != "sk_reuseport"@);
    assert("ext"@ != "flow_dissector"@);
    assert("ext"@ != "cgroup_sysctl"@);
    assert("ext"@ != "raw_tracepoint_writable"@);
    assert("ext"@ != "cgroup_sockopt"@);
    assert("ext"@ != "tracing"@);
    assert("ext"@ != "struct_ops"@);
    assert("lsm"@ != "unspec"@);
    assert("lsm"@ != "socket_filter"@);
    assert("lsm"@ != "probe"@);
    assert("lsm"@ != "tc"@);
    assert("lsm"@ != "sched_act"@);
    assert("lsm"@ != "tracepoint"@);
    assert("lsm"@ != "xdp"@);
    assert("lsm"@ != "perf_event"@);
    assert("lsm"@ != "cgroup_skb"@);
    assert("lsm"@ != "cgroup_sock"@);
    assert("lsm"@ != "lwt_in"@);
    assert("lsm"@ != "lwt_out"@);
    assert("lsm"@ != "lwt_xmit"@);
    assert("lsm"@ != "sock_ops"@);
    assert("lsm"@ != "sk_skb"@);
    assert("lsm"@ != "cgroup_device"@);
    assert("lsm"@ != "sk_msg"@);
    assert("lsm"@ != "raw_tracepoint"@);
    assert("lsm"@ != "cgroup_sock_addr"@);
    assert("lsm"@ != "lwt_seg6local"@);
    assert("lsm"@ != "lirc_mode2"@);
    assert("lsm"@ != "sk_reuseport"@);
    assert("lsm"@ != "flow_dissector"@);
    assert("lsm"@ != "cgroup_sysctl"@);
    assert("lsm"@ != "raw_tracepoint_writable"@);
    assert("lsm"@ != "cgroup_sockopt"@);
    assert("lsm"@ != "tracing"@);
    assert("lsm"@ != "struct_ops"@);
    assert("lsm"@ != "ext"@);
    assert("sk_lookup"@ != "unspec"@);
    assert("sk_lookup"@ != "socket_filter"@);
    assert("sk_lookup"@ != "probe"@);
    assert("sk_lookup"@ != "tc"@);
    assert("sk_lookup"@ != "sched_act"@);
    assert("sk_lookup"@ != "tracepoint"@);
    assert("sk_lookup"@ != "xdp"@);
    assert("sk_lookup"@ != "perf_event"@);
    assert("sk_lookup"@ != "cgroup_skb"@);
    assert("sk_lookup"@ != "cgroup_sock"@);
    assert("sk_lookup"@ != "lwt_in"@);
    assert("sk_lookup"@ != "lwt_out"@);
    assert("sk_lookup"@ != "lwt_xmit"@);
    assert("sk_lookup"@ != "sock_ops"@);
    assert("sk_lookup"@ != "sk_skb"@);
    assert("sk_lookup"@ != "cgroup_device"@);
    assert("sk_lookup"@ != "sk_msg"@);
    assert("sk_lookup"@ != "raw_tracepoint"@);
    assert("sk_lookup"@ != "cgroup_sock_addr"@);
    assert("sk_lookup"@ != "lwt_seg6local"@);
    assert("sk_lookup"@ != "lirc_mode2"@);
    assert("sk_lookup"@ != "sk_reuseport"@);
    assert("sk_lookup"@ != "flow_dissector"@);
    assert("sk_lookup"@ != "cgroup_sysctl"@);
    assert("sk_lookup"@ != "raw_tracepoint_writable"@);
    assert("sk_lookup"@ != "cgroup_sockopt"@);
    assert("sk_lookup"@ != "tracing"@);
    assert("sk_lookup"@ != "struct_ops"@);
    assert("sk_lookup"@ != "ext"@);
    assert("sk_lookup"@ != "lsm"@);
    assert("syscall"@ != "unspec"@);
    assert("syscall"@ != "socket_filter"@);
    assert("syscall"@ != "probe"@);
    assert("syscall"@ != "tc"@);
    assert("syscall"@ != "sched_act"@);
    assert("syscall"@ != "tracepoint"@);
    assert("syscall"@ != "xdp"@);
    assert("syscall"@ != "perf_event"@);
    assert("syscall"@ != "cgroup_skb"@);
    assert("syscall"@ != "cgroup_sock"@);
    assert("syscall"@ != "lwt_in"@);
    assert("syscall"@ != "lwt_out"@);
    assert("syscall"@ != "lwt_xmit"@);
    assert("syscall"@ != "sock_ops"@);
    assert("syscall"@ != "sk_skb"@);
    assert("syscall"@ != "cgroup_device"@);
    assert("syscall"@ != "sk_msg"@);
    assert("syscall"@ != "raw_tracepoint"@);
    assert("syscall"@ != "cgroup_sock_addr"@);
    assert("syscall"@ != "lwt_seg6local"@);
    assert("syscall"@ != "lirc_mode2"@);
    assert("syscall"@ != "sk_reuseport"@);
    assert("syscall"@ != "flow_dissector"@);
    assert("syscall"@ != "cgroup_sysctl"@);
    assert("syscall"@ != "raw_tracepoint_writable"@);
    assert("syscall"@ != "cgroup_sockopt"@);
    assert("syscall"@ != "tracing"@);
    assert("syscall"@ != "struct_ops"@);
    assert("syscall"@ != "ext"@);
    assert("syscall"@ != "lsm"@);
    assert("syscall"@ != "sk_lookup"@);

}

/// The kind of a kernel probe attachment.
#[derive(Copy, Clone, Debug, Eq, PartialEq, Structural)]
pub enum ProbeType {
    Kprobe,
    Kretprobe,
    Uprobe,
    Uretprobe,
}

/// The integer each probe type encodes to.
pub open spec fn spec_probe_type_i32(p: ProbeType) -> i32 {
    match p {
        ProbeType::Kprobe => 0,
        ProbeType::Kretprobe => 1,
        ProbeType::Uprobe => 2,
        ProbeType::Uretprobe => 3,
    }
}

/// The probe type, if any, that an integer decodes to.
pub open spec fn spec_probe_type_from_i32(v: i32) -> Option<ProbeType> {
    if v == 0 {
        Some(ProbeType::Kprobe)
    } else if v == 1 {
        Some(ProbeType::Kretprobe)
    } else if v == 2 {
        Some(ProbeType::Uprobe)
    } else if v == 3 {
        Some(ProbeType::Uretprobe)
    } else {
        None
    }
}

/// The lower-case name each probe type encodes to.
pub open spec fn spec_probe_type_str(p: ProbeType) -> Seq<char> {
    match p {
        ProbeType::Kprobe => "kprobe"@,
        ProbeType::Kretprobe => "kretprobe"@,
        ProbeType::Uprobe => "uprobe"@,
        ProbeType::Uretprobe => "uretprobe"@,
    }
}

impl ProbeType {
    /// Decodes a probe type from its integer encoding.
    pub fn from_i32(v: i32) -> (r: Result<ProbeType, ParseError>)
        ensures
            spec_probe_type_from_i32(v) matches Some(p) ==> r == Ok::<ProbeType, ParseError>(p),
            spec_probe_type_from_i32(v) is None ==> (r matches Err(ParseError::InvalidProbeType {
                probe,
            }) && probe@ == spec_i32_decimal(v)),
    {
        match v {
            0 => Ok(ProbeType::Kprobe),
            1 => Ok(ProbeType::Kretprobe),
            2 => Ok(ProbeType::Uprobe),
            3 => Ok(ProbeType::Uretprobe),
            _ => Err(ParseError::InvalidProbeType { probe: i32_to_string(v) }),
        }
    }

    /// The integer encoding of this probe type.
    pub fn to_i32(&self) -> (r: i32)
        ensures
            r == spec_probe_type_i32(*self),
    {
        match self {
            ProbeType::Kprobe => 0,
            ProbeType::Kretprobe => 1,
            ProbeType::Uprobe => 2,
            ProbeType::Uretprobe => 3,
        }
    }

    /// The lower-case name of this probe type.
    pub fn as_str(&self) -> (r: &'static str)
        ensures
            r@ == spec_probe_type_str(*self),
    {
        match self {
            ProbeType::Kprobe => "kprobe",
            ProbeType::Kretprobe => "kretprobe",
            ProbeType::Uprobe => "uprobe",
            ProbeType::Uretprobe => "uretprobe",
        }
    }
}

/// Every probe type round-trips through its integer encoding.
pub proof fn lemma_probe_type_i32_round_trip(p: ProbeType, v: i32)
    ensures
        spec_probe_type_from_i32(spec_probe_type_i32(p)) == Some(p),
        spec_probe_type_from_i32(v) matches Some(q) ==> spec_probe_type_i32(q) == v,
{
}

/// The kind of an eBPF map, matching the kernel's map-type
/// enumeration value for value. Two kernel values have no decoding
/// because the daemon never materialises those map kinds.
#[derive(Copy, Clone, Debug, Eq, PartialEq, Structural)]
pub enum MapType {
    Unspec,
    Hash,
    Array,
    ProgArray,
    PerfEventArray,
    PerCpuHash,
    PerCpuArray,
    StackTrace,
    CgroupArray,
    LruHash,
    LruPerCpuHash,
    LpmTrie,
    ArrayOfMaps,
    HashOfMaps,
    Devmap,
    Sockmap,
    Cpumap,
    Xskmap,
    Sockhash,
    CgroupStorage,
    ReuseportSockarray,
    PerCpuCgroupStorage,
    Queue,
    Stack,
    SkStorage,
    DevmapHash,
    StructOps,
    Ringbuf,
    InodeStorage,
    TaskStorage,
    BloomFilter,
    UserRingbuf,
    CgrpStorage,
    Arena,
}

/// The map type, if any, that a kernel integer decodes to.
pub open spec fn spec_map_type_from_u32(v: u32) -> Option<MapType> {
    if v == 0 {
        Some(MapType::Unspec)
    } else if v == 1 {
        Some(MapType::Hash)
    } else if v == 2 {
        Some(MapType::Array)
    } else if v == 3 {
        Some(MapType::ProgArray)
    } else if v == 4 {
        Some(MapType::PerfEventArray)
    } else if v == 5 {
        Some(MapType::PerCpuHash)
    } else if v == 6 {
        Some(MapType::PerCpuArray)
    } else if v == 7 {
        Some(MapType::StackTrace)
    } else if v == 8 {
        Some(MapType::CgroupArray)
    } else if v == 9 {
        Some(MapType::LruHash)
    } else if v == 10 {
        Some(MapType::LruPerCpuHash)
    } else if v == 11 {
        Some(MapType::LpmTrie)
    } else if v == 12 {
        Some(MapType::ArrayOfMaps)
    } else if v == 13 {
        Some(MapType::HashOfMaps)
    } else if v == 14 {
        Some(MapType::Devmap)
    } else if v == 15 {
        Some(MapType::Sockmap)
    } else if v == 16 {
        Some(MapType::Cpumap)
    } else if v == 17 {
        Some(MapType::Xskmap)
    } else if v == 18 {
        Some(MapType::Sockhash)
    } else if v == 20 {
        Some(MapType::ReuseportSockarray)
    } else if v == 22 {
        Some(MapType::Queue)
    } else if v == 23 {
        Some(MapType::Stack)
    } else if v == 24 {
        Some(MapType::SkStorage)
    } else if v == 25 {
        Some(MapType::DevmapHash)
    } else if v == 26 {
        Some(MapType::StructOps)
    } else if v == 27 {
        Some(MapType::Ringbuf)
    } else if v == 28 {
        Some(MapType::InodeStorage)
    } else if v == 29 {
        Some(MapType::TaskStorage)
    } else if v == 30 {
        Some(MapType::BloomFilter)
    } else if v == 31 {
        Some(MapType::UserRingbuf)
    } else if v == 32 {
        Some(MapType::CgrpStorage)
    } else if v == 33 {
        Some(MapType::Arena)
    } else {
        None
    }
}

/// The lower-case name each map type encodes to.
pub open spec fn spec_map_type_str(m: MapType) -> Seq<char> {
    match m {
        MapType::Unspec => "unspec"@,
        MapType::Hash => "hash"@,
        MapType::Array => "array"@,
        MapType::ProgArray => "prog_array"@,
        MapType::PerfEventArray => "perf_event_array"@,
        MapType::PerCpuHash => "per_cpu_hash"@,
        MapType::PerCpuArray => "per_cpu_array"@,
        MapType::StackTrace => "stack_trace"@,
        MapType::CgroupArray => "cgroup_array"@,
        MapType::LruHash => "lru_hash"@,
        MapType::LruPerCpuHash => "lru_per_cpu_hash"@,
        MapType::LpmTrie => "lpm_trie"@,
        MapType::ArrayOfMaps => "array_of_maps"@,
        MapType::HashOfMaps => "hash_of_maps"@,
        MapType::Devmap => "devmap"@,
        MapType::Sockmap => "sockmap"@,
        MapType::Cpumap => "cpumap"@,
        MapType::Xskmap => "xskmap"@,
        MapType::Sockhash => "sockhash"@,
        MapType::CgroupStorage => "cgroup_storage"@,
        MapType::ReuseportSockarray => "reuseport_sockarray"@,
        MapType::PerCpuCgroupStorage => "per_cpu_cgroup_storage"@,
        MapType::Queue => "queue"@,
        MapType::Stack => "stack"@,
        MapType::SkStorage => "sk_storage"@,
        MapType::DevmapHash => "devmap_hash"@,
        MapType::StructOps => "struct_ops"@,
        MapType::Ringbuf => "ringbuf"@,
        MapType::InodeStorage => "inode_storage"@,
        MapType::TaskStorage => "task_storage"@,
        MapType::BloomFilter => "bloom_filter"@,
        MapType::UserRingbuf => "user_ringbuf"@,
        MapType::CgrpStorage => "cgrp_storage"@,
        MapType::Arena => "arena"@,
    }
}

impl MapType {
    /// Decodes a map type from its kernel integer encoding; the two
    /// storage kinds the daemon never reads back, and every unknown
    /// integer, decode to nothing.
    pub fn from_u32(v: u32) -> (r: Option<MapType>)
        ensures
            r == spec_map_type_from_u32(v),
    {
        match v {
            0 => Some(MapType::Unspec),
            1 => Some(MapType::Hash),
            2 => Some(MapType::Array),
            3 => Some(MapType::ProgArray),
            4 => Some(MapType::PerfEventArray),
            5 => Some(MapType::PerCpuHash),
            6 => Some(MapType::PerCpuArray),
            7 => Some(MapType::StackTrace),
            8 => Some(MapType::CgroupArray),
            9 => Some(MapType::LruHash),
            10 => Some(MapType::LruPerCpuHash),
            11 => Some(MapType::LpmTrie),
            12 => Some(MapType::ArrayOfMaps),
            13 => Some(MapType::HashOfMaps),
            14 => Some(MapType::Devmap),
            15 => Some(MapType::Sockmap),
            16 => Some(MapType::Cpumap),
            17 => Some(MapType::Xskmap),
            18 => Some(MapType::Sockhash),
            20 => Some(MapType::ReuseportSockarray),
            22 => Some(MapType::Queue),
            23 => Some(MapType::Stack),
            24 => Some(MapType::SkStorage),
            25 => Some(MapType::DevmapHash),
            26 => Some(MapType::StructOps),
            27 => Some(MapType::Ringbuf),
            28 => Some(MapType::InodeStorage),
            29 => Some(MapType::TaskStorage),
            30 => Some(MapType::BloomFilter),
            31 => Some(MapType::UserRingbuf),
            32 => Some(MapType::CgrpStorage),
            33 => Some(MapType::Arena),
            _ => None,
        }
    }

    /// The lower-case name of this map type.
    pub fn as_str(&self) -> (r: &'static str)
        ensures
            r@ == spec_map_type_str(*self),
    {
        match self {
            MapType::Unspec => "unspec",
            MapType::Hash => "hash",
            MapType::Array => "array",
            MapType::ProgArray => "prog_array",
            MapType::PerfEventArray => "perf_event_array",
            MapType::PerCpuHash => "per_cpu_hash",
            MapType::PerCpuArray => "per_cpu_array",
            MapType::StackTrace => "stack_trace",
            MapType::CgroupArray => "cgroup_array",
            MapType::LruHash => "lru_hash",
            MapType::LruPerCpuHash => "lru_per_cpu_hash",
            MapType::LpmTrie => "lpm_trie",
            MapType::ArrayOfMaps => "array_of_maps",
            MapType::HashOfMaps => "hash_of_maps",
            MapType::Devmap => "devmap",
            MapType::Sockmap => "sockmap",
            MapType::Cpumap => "cpumap",
            MapType::Xskmap => "xskmap",
            MapType::Sockhash => "sockhash",
            MapType::CgroupStorage => "cgroup_storage",
            MapType::ReuseportSockarray => "reuseport_sockarray",
            MapType::PerCpuCgroupStorage => "per_cpu_cgroup_storage",
            MapType::Queue => "queue",
            MapType::Stack => "stack",
            MapType::SkStorage => "sk_storage",
            MapType::DevmapHash => "devmap_hash",
            MapType::StructOps => "struct_ops",
            MapType::Ringbuf => "ringbuf",
            MapType::InodeStorage => "inode_storage",
            MapType::TaskStorage => "task_storage",
            MapType::BloomFilter => "bloom_filter",
            MapType::UserRingbuf => "user_ringbuf",
            MapType::CgrpStorage => "cgrp_storage",
            MapType::Arena => "arena",
        }
    }
}


/// When to fetch a bytecode image from its registry.
#[derive(Copy, Clone, Debug, Eq, PartialEq, Structural)]
pub enum ImagePullPolicy {
    Always,
    IfNotPresent,
    Never,
}

/// The integer each pull policy encodes to.
pub open spec fn spec_pull_policy_i32(p: ImagePullPolicy) -> i32 {
    match p {
        ImagePullPolicy::Always => 0,
        ImagePullPolicy::IfNotPresent => 1,
        ImagePullPolicy::Never => 2,
    }
}

/// The pull policy, if any, that an integer decodes to.
pub open spec fn spec_pull_policy_from_i32(v: i32) -> Option<ImagePullPolicy> {
    if v == 0 {
        Some(ImagePullPolicy::Always)
    } else if v == 1 {
        Some(ImagePullPolicy::IfNotPresent)
    } else if v == 2 {
        Some(ImagePullPolicy::Never)
    } else {
        None
    }
}

/// The name each pull policy encodes to.
pub open spec fn spec_pull_policy_str(p: ImagePullPolicy) -> Seq<char> {
    match p {
        ImagePullPolicy::Always => "Always"@,
        ImagePullPolicy::IfNotPresent => "IfNotPresent"@,
        ImagePullPolicy::Never => "Never"@,
    }
}

/// The pull policy, if any, that a name decodes to.
pub open spec fn spec_pull_policy_from_str(s: Seq<char>) -> Option<ImagePullPolicy> {
    if s == "Always"@ {
        Some(ImagePullPolicy::Always)
    } else if s == "IfNotPresent"@ {
        Some(ImagePullPolicy::IfNotPresent)
    } else if s == "Never"@ {
        Some(ImagePullPolicy::Never)
    } else {
        None
    }
}

impl ImagePullPolicy {
    /// The integer encoding of this pull policy.
    pub fn to_i32(&self) -> (r: i32)
        ensures
            r == spec_pull_policy_i32(*self),
    {
        match self {
            ImagePullPolicy::Always => 0,
            ImagePullPolicy::IfNotPresent => 1,
            ImagePullPolicy::Never => 2,
        }
    }

    /// Decodes a pull policy from its integer encoding.
    pub fn from_i32(v: i32) -> (r: Result<ImagePullPolicy, ParseError>)
        ensures
            spec_pull_policy_from_i32(v) matches Some(p) ==> r == Ok::<
                ImagePullPolicy,
                ParseError,
            >(p),
            spec_pull_policy_from_i32(v) is None ==> (r matches Err(
                ParseError::InvalidBytecodeImagePullPolicy { pull_policy },
            ) && pull_policy@ == spec_i32_decimal(v)),
    {
        match v {
            0 => Ok(ImagePullPolicy::Always),
            1 => Ok(ImagePullPolicy::IfNotPresent),
            2 => Ok(ImagePullPolicy::Never),
            _ => Err(ParseError::InvalidBytecodeImagePullPolicy { pull_policy: i32_to_string(v) }),
        }
    }

    /// The name of this pull policy.
    pub fn as_str(&self) -> (r: &'static str)
        ensures
            r@ == spec_pull_policy_str(*self),
    {
        match self {
            ImagePullPolicy::Always => "Always",
            ImagePullPolicy::IfNotPresent => "IfNotPresent",
            ImagePullPolicy::Never => "Never",
        }
    }

    /// Decodes a pull policy from its name.
    pub fn from_str(s: &str) -> (r: Result<ImagePullPolicy, ParseError>)
        ensures
            spec_pull_policy_from_str(s@) matches Some(p) ==> r == Ok::<
                ImagePullPolicy,
                ParseError,
            >(p),
            spec_pull_policy_from_str(s@) is None ==> (r matches Err(
                ParseError::InvalidBytecodeImagePullPolicy { pull_policy },
            ) && pull_policy@ == s@),
    {
        if str_eq(s, "Always") {
            Ok(ImagePullPolicy::Always)
        } else if str_eq(s, "IfNotPresent") {
            Ok(ImagePullPolicy::IfNotPresent)
        } else if str_eq(s, "Never") {
            Ok(ImagePullPolicy::Never)
        } else {
            Err(ParseError::InvalidBytecodeImagePullPolicy { pull_policy: String::from_str(s) })
        }
    }
}

/// Every pull policy round-trips through its integer encoding.
pub proof fn lemma_pull_policy_i32_round_trip(p: ImagePullPolicy, v: i32)
    ensures
        spec_pull_policy_from_i32(spec_pull_policy_i32(p)) == Some(p),
        spec_pull_policy_from_i32(v) matches Some(q) ==> spec_pull_policy_i32(q) == v,
{
}

/// Every pull policy round-trips through its string encoding.
pub proof fn lemma_pull_policy_str_round_trip(p: ImagePullPolicy, s: Seq<char>)
    ensures
        spec_pull_policy_from_str(spec_pull_policy_str(p)) == Some(p),
        spec_pull_policy_from_str(s) matches Some(q) ==> spec_pull_policy_str(q) == s,
{
    reveal_strlit("Always");
    reveal_strlit("IfNotPresent");
    reveal_strlit("Never");
    assert(("Always"@).len() == 6);
    assert(("IfNotPresent"@).len() == 12);
    assert(("Never"@).len() == 5);
    assert("IfNotPresent"@ != "Always"@);
    assert("Never"@ != "Always"@);
    assert("Never"@ != "IfNotPresent"@);
}

/// The direction of traffic a TC program applies to.
#[derive(Debug, Eq, PartialEq, Copy, Clone, Hash, Structural)]
pub enum Direction {
    Ingress,
    Egress,
}

/// The integer each direction encodes to.
pub open spec fn spec_direction_u32(d: Direction) -> u32 {
    match d {
        Direction::Ingress => 1,
        Direction::Egress => 2,
    }
}

/// The direction, if any, that an integer decodes to.
pub open spec fn spec_direction_from_u32(v: u32) -> Option<Direction> {
    if v == 1 {
        Some(Direction::Ingress)
    } else if v == 2 {
        Some(Direction::Egress)
    } else {
        None
    }
}

/// The lower-case name each direction encodes to.
pub open spec fn spec_direction_str(d: Direction) -> Seq<char> {
    match d {
        Direction::Ingress => "ingress"@,
        Direction::Egress => "egress"@,
    }
}

/// The direction, if any, that a name decodes to.
pub open spec fn spec_direction_from_str(s: Seq<char>) -> Option<Direction> {
    if s == "ingress"@ {
        Some(Direction::Ingress)
    } else if s == "egress"@ {
        Some(Direction::Egress)
    } else {
        None
    }
}

impl Direction {
    /// The integer encoding of this direction.
    pub fn to_u32(&self) -> (r: u32)
        ensures
            r == spec_direction_u32(*self),
    {
        match self {
            Direction::Ingress => 1,
            Direction::Egress => 2,
        }
    }

    /// Decodes a direction from its integer encoding; every value
    /// other than the two encodings is rejected.
    pub fn from_u32(v: u32) -> (r: Result<Direction, ParseError>)
        ensures
            spec_direction_from_u32(v) matches Some(d) ==> r == Ok::<Direction, ParseError>(d),
            spec_direction_from_u32(v) is None ==> (r matches Err(ParseError::InvalidDirection {
                direction,
            }) && direction@ == spec_u32_decimal(v)),
    {
        match v {
            1 => Ok(Direction::Ingress),
            2 => Ok(Direction::Egress),
            _ => Err(ParseError::InvalidDirection { direction: u32_to_string(v) }),
        }
    }

    /// The lower-case name of this direction.
    pub fn as_str(&self) -> (r: &'static str)
        ensures
            r@ == spec_direction_str(*self),
    {
        match self {
            Direction::Ingress => "ingress",
            Direction::Egress => "egress",
        }
    }

    /// Decodes a direction from its lower-case name.
    pub fn from_str(s: &str) -> (r: Result<Direction, ParseError>)
        ensures
            spec_direction_from_str(s@) matches Some(d) ==> r == Ok::<Direction, ParseError>(d),
            spec_direction_from_str(s@) is None ==> (r matches Err(ParseError::InvalidDirection {
                direction,
            }) && direction@ == s@),
    {
        if str_eq(s, "ingress") {
            Ok(Direction::Ingress)
        } else if str_eq(s, "egress") {
            Ok(Direction::Egress)
        } else {
            Err(ParseError::InvalidDirection { direction: String::from_str(s) })
        }
    }
}

/// Every direction round-trips through its integer encoding.
pub proof fn lemma_direction_u32_round_trip(d: Direction, v: u32)
    ensures
        spec_direction_from_u32(spec_direction_u32(d)) == Some(d),
        spec_direction_from_u32(v) matches Some(q) ==> spec_direction_u32(q) == v,
{
}

/// Every direction round-trips through its string encoding.
pub proof fn lemma_direction_str_round_trip(d: Direction, s: Seq<char>)
    ensures
        spec_direction_from_str(spec_direction_str(d)) == Some(d),
        spec_direction_from_str(s) matches Some(q) ==> spec_direction_str(q) == s,
{
    reveal_strlit("ingress");
    reveal_strlit("egress");
    assert(("ingress"@).len() == 7);
    assert(("egress"@).len() == 6);
    assert("egress"@ != "ingress"@);
}

/// The position of the first separator in a section name: the name's
/// length when it has none.
pub open spec fn spec_first_slash(s: Seq<u8>) -> int
    decreases s.len(),
{
    if s.len() == 0 {
        0
    } else if s[0] == 47u8 {
        0
    } else {
        1 + spec_first_slash(s.drop_first())
    }
}

/// The first separator is where the scan says it is.
proof fn lemma_first_slash_at(s: Seq<u8>, i: int)
    requires
        0 <= i <= s.len(),
        forall|j: int| 0 <= j < i ==> s[j] != 47u8,
        i < s.len() ==> s[i] == 47u8,
    ensures
        spec_first_slash(s) == i,
    decreases i,
{
    if s.len() > 0 && i > 0 {
        assert forall|j: int| 0 <= j < i - 1 implies s.drop_first()[j] != 47u8 by {
            assert(s[j + 1] != 47u8);
        }
        lemma_first_slash_at(s.drop_first(), i - 1);
    }
}

/// The kind piece of a section name: what stands before the first
/// separator.
pub open spec fn spec_section_kind(s: Seq<u8>) -> Seq<u8> {
    s.take(spec_first_slash(s))
}

/// What stands after the first separator, up to the next one: the
/// sub-kind piece, empty when the name has no separator.
pub open spec fn spec_section_sub(s: Seq<u8>) -> Seq<u8> {
    if spec_first_slash(s) < s.len() {
        let rest = s.skip(spec_first_slash(s) + 1);
        rest.take(spec_first_slash(rest))
    } else {
        Seq::empty()
    }
}

/// The kernel program type a bytecode section name declares, by its
/// kind piece — and, for the attach-typed control-group families, by
/// its sub-kind. A kind that names no loadable program family
/// declares nothing. The attach-specific suffixes of the other
/// families do not change the type, so they are left to the loader.
pub open spec fn spec_program_type_of_section(s: Seq<u8>) -> Option<ProgramType> {
    let kind = spec_section_kind(s);
    let sub = spec_section_sub(s);
    if kind == encode_utf8("kprobe"@) || kind == encode_utf8("kretprobe"@) || kind == encode_utf8(
        "uprobe"@,
    ) || kind == encode_utf8("uprobe.s"@) || kind == encode_utf8("uretprobe"@) || kind
        == encode_utf8("uretprobe.s"@) {
        Some(ProgramType::Probe)
    } else if kind == encode_utf8("xdp"@) || kind == encode_utf8("xdp.frags"@) {
        Some(ProgramType::Xdp)
    } else if kind == encode_utf8("tracepoint"@) || kind == encode_utf8("tp"@) || kind
        == encode_utf8("tp_btf"@) {
        Some(ProgramType::Tracepoint)
    } else if kind == encode_utf8("socket"@) {
        Some(ProgramType::SocketFilter)
    } else if kind == encode_utf8("sk_msg"@) {
        Some(ProgramType::SkMsg)
    } else if kind == encode_utf8("sk_skb"@) {
        Some(ProgramType::SkSkb)
    } else if kind == encode_utf8("sockops"@) {
        Some(ProgramType::SockOps)
    } else if kind == encode_utf8("classifier"@) {
        Some(ProgramType::Tc)
    } else if kind == encode_utf8("cgroup_skb"@) {
        Some(ProgramType::CgroupSkb)
    } else if kind == encode_utf8("cgroup"@) {
        if sub == encode_utf8("skb"@) {
            Some(ProgramType::CgroupSkb)
        } else if sub == encode_utf8("sysctl"@) {
            Some(ProgramType::CgroupSysctl)
        } else if sub == encode_utf8("dev"@) {
            Some(ProgramType::CgroupDevice)
        } else if sub == encode_utf8("getsockopt"@) || sub == encode_utf8("setsockopt"@) {
            Some(ProgramType::CgroupSockopt)
        } else if sub == encode_utf8("sock"@) || sub == encode_utf8("post_bind4"@) || sub
            == encode_utf8("post_bind6"@) || sub == encode_utf8("sock_create"@) || sub
            == encode_utf8("sock_release"@) {
            Some(ProgramType::CgroupSock)
        } else if sub == encode_utf8("bind4"@) || sub == encode_utf8("bind6"@) || sub
            == encode_utf8("connect4"@) || sub == encode_utf8("connect6"@) || sub == encode_utf8(
            "getpeername4"@,
        ) || sub == encode_utf8("getpeername6"@) || sub == encode_utf8("getsockname4"@) || sub
            == encode_utf8("getsockname6"@) || sub == encode_utf8("sendmsg4"@) || sub
            == encode_utf8("sendmsg6"@) || sub == encode_utf8("recvmsg4"@) || sub == encode_utf8(
            "recvmsg6"@,
        ) {
            Some(ProgramType::CgroupSockAddr)
        } else {
            None
        }
    } else if kind == encode_utf8("lirc_mode2"@) {
        Some(ProgramType::LircMode2)
    } else if kind == encode_utf8("perf_event"@) {
        Some(ProgramType::PerfEvent)
    } else if kind == encode_utf8("raw_tp"@) || kind == encode_utf8("raw_tracepoint"@) {
        Some(ProgramType::RawTracepoint)
    } else if kind == encode_utf8("lsm"@) || kind == encode_utf8("lsm.s"@) || kind == encode_utf8(
        "lsm_cgroup"@,
    ) {
        Some(ProgramType::Lsm)
    } else if kind == encode_utf8("fentry"@) || kind == encode_utf8("fentry.s"@) || kind
        == encode_utf8("fexit"@) || kind == encode_utf8("fexit.s"@) || kind == encode_utf8(
        "iter"@,
    ) || kind == encode_utf8("iter.s"@) {
        Some(ProgramType::Tracing)
    } else if kind == encode_utf8("flow_dissector"@) {
        Some(ProgramType::FlowDissector)
    } else if kind == encode_utf8("freplace"@) {
        Some(ProgramType::Ext)
    } else if kind == encode_utf8("sk_lookup"@) {
        Some(ProgramType::SkLookup)
    } else if kind == encode_utf8("sk_reuseport"@) {
        Some(ProgramType::SkReuseport)
    } else {
        None
    }
}

/// Decides the kernel program type a bytecode section name declares.
pub fn program_type_of_section(section: &str) -> (r: Option<ProgramType>)
    ensures
        r == spec_program_type_of_section(encode_utf8(section@)),
{
    let b = section.as_bytes();
    let cut = first_slash(b);
    let kind = vstd::slice::slice_subrange(b, 0, cut);
    proof {
        assert(kind@ =~= spec_section_kind(b@));
    }
    let sub = if cut < b.len() {
        let rest = vstd::slice::slice_subrange(b, cut + 1, b.len());
        let sub_cut = first_slash(rest);
        let sub = vstd::slice::slice_subrange(rest, 0, sub_cut);
        proof {
            assert(rest@ =~= b@.skip(cut + 1));
            assert(sub@ =~= spec_section_sub(b@));
        }
        sub
    } else {
        let sub: &[u8] = &[];
        proof {
            assert(sub@ =~= spec_section_sub(b@));
        }
        sub
    };
    if bytes_eq(kind, "kprobe".as_bytes()) || bytes_eq(kind, "kretprobe".as_bytes()) || bytes_eq(
        kind,
        "uprobe".as_bytes(),
    ) || bytes_eq(kind, "uprobe.s".as_bytes()) || bytes_eq(kind, "uretprobe".as_bytes())
        || bytes_eq(kind, "uretprobe.s".as_bytes()) {
        Some(ProgramType::Probe)
    } else if bytes_eq(kind, "xdp".as_bytes()) || bytes_eq(kind, "xdp.frags".as_bytes()) {
        Some(ProgramType::Xdp)
    } else if bytes_eq(kind, "tracepoint".as_bytes()) || bytes_eq(kind, "tp".as_bytes())
        || bytes_eq(kind, "tp_btf".as_bytes()) {
        Some(ProgramType::Tracepoint)
    } else if bytes_eq(kind, "socket".as_bytes()) {
        Some(ProgramType::SocketFilter)
    } else if bytes_eq(kind, "sk_msg".as_bytes()) {
        Some(ProgramType::SkMsg)
    } else if bytes_eq(kind, "sk_skb".as_bytes()) {
        Some(ProgramType::SkSkb)
    } else if bytes_eq(kind, "sockops".as_bytes()) {
        Some(ProgramType::SockOps)
    } else if bytes_eq(kind, "classifier".as_bytes()) {
        Some(ProgramType::Tc)
    } else if bytes_eq(kind, "cgroup_skb".as_bytes()) {
        Some(ProgramType::CgroupSkb)
    } else if bytes_eq(kind, "cgroup".as_bytes()) {
        if bytes_eq(sub, "skb".as_bytes()) {
            Some(ProgramType::CgroupSkb)
        } else if bytes_eq(sub, "sysctl".as_bytes()) {
            Some(ProgramType::CgroupSysctl)
        } else if bytes_eq(sub, "dev".as_bytes()) {
            Some(ProgramType::CgroupDevice)
        } else if bytes_eq(sub, "getsockopt".as_bytes()) || bytes_eq(sub, "setsockopt".as_bytes()) {
            Some(ProgramType::CgroupSockopt)
        } else if bytes_eq(sub, "sock".as_bytes()) || bytes_eq(sub, "post_bind4".as_bytes())
            || bytes_eq(sub, "post_bind6".as_bytes()) || bytes_eq(sub, "sock_create".as_bytes())
            || bytes_eq(sub, "sock_release".as_bytes()) {
            Some(ProgramType::CgroupSock)
        } else if bytes_eq(sub, "bind4".as_bytes()) || bytes_eq(sub, "bind6".as_bytes())
            || bytes_eq(sub, "connect4".as_bytes()) || bytes_eq(sub, "connect6".as_bytes())
            || bytes_eq(sub, "getpeername4".as_bytes()) || bytes_eq(sub, "getpeername6".as_bytes())
            || bytes_eq(sub, "getsockname4".as_bytes()) || bytes_eq(sub, "getsockname6".as_bytes())
            || bytes_eq(sub, "sendmsg4".as_bytes()) || bytes_eq(sub, "sendmsg6".as_bytes())
            || bytes_eq(sub, "recvmsg4".as_bytes()) || bytes_eq(sub, "recvmsg6".as_bytes()) {
            Some(ProgramType::CgroupSockAddr)
        } else {
            None
        }
    } else if bytes_eq(kind, "lirc_mode2".as_bytes()) {
        Some(ProgramType::LircMode2)
    } else if bytes_eq(kind, "perf_event".as_bytes()) {
        Some(ProgramType::PerfEvent)
    } else if bytes_eq(kind, "raw_tp".as_bytes()) || bytes_eq(kind, "raw_tracepoint".as_bytes()) {
        Some(ProgramType::RawTracepoint)
    } else if bytes_eq(kind, "lsm".as_bytes()) || bytes_eq(kind, "lsm.s".as_bytes()) || bytes_eq(
        kind,
        "lsm_cgroup".as_bytes(),
    ) {
        Some(ProgramType::Lsm)
    } else if bytes_eq(kind, "fentry".as_bytes()) || bytes_eq(kind, "fentry.s".as_bytes())
        || bytes_eq(kind, "fexit".as_bytes()) || bytes_eq(kind, "fexit.s".as_bytes()) || bytes_eq(
        kind,
        "iter".as_bytes(),
    ) || bytes_eq(kind, "iter.s".as_bytes()) {
        Some(ProgramType::Tracing)
    } else if bytes_eq(kind, "flow_dissector".as_bytes()) {
        Some(ProgramType::FlowDissector)
    } else if bytes_eq(kind, "freplace".as_bytes()) {
        Some(ProgramType::Ext)
    } else if bytes_eq(kind, "sk_lookup".as_bytes()) {
        Some(ProgramType::SkLookup)
    } else if bytes_eq(kind, "sk_reuseport".as_bytes()) {
        Some(ProgramType::SkReuseport)
    } else {
        None
    }
}

/// The index of the first separator byte, or the length.
fn first_slash(b: &[u8]) -> (r: usize)
    ensures
        r == spec_first_slash(b@),
        r <= b@.len(),
{
    let mut i: usize = 0;
    while i < b.len()
        invariant
            0 <= i <= b@.len(),
            forall|j: int| 0 <= j < i ==> b@[j] != 47u8,
        decreases b@.len() - i,
    {
        if *vstd::slice::slice_index_get(b, i) == 47u8 {
            proof {
                lemma_first_slash_at(b@, i as int);
            }
            return i;
        }
        i = i + 1;
    }
    proof {
        lemma_first_slash_at(b@, b@.len() as int);
    }
    b.len()
}


} // verus!
