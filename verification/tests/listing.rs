//! Listing filters, the map-pinning rule and the pin paths.

use bpfman::data::{KernelProgramData, Location, ProgramData};
use bpfman::filter::ListFilter;
use bpfman::programs::{Program, XdpProgram};
use bpfman::proceed_on::XdpProceedOn;
use bpfman::store::Store;
use bpfman::strutil::{i32_to_string, u32_to_string};
use bpfman::utils::{prog_link_pin_path, prog_pin_path, should_map_be_pinned};

fn temp_store(tag: &str) -> Store {
    let path = format!("/tmp/bpfman-list-{tag}");
    Store::open(&path).unwrap()
}

fn xdp_program(store: &Store, tag: &str) -> Program {
    let tree = store.open_tree(tag.as_bytes()).unwrap();
    let location = Location::File(String::from("/tmp/x.o"));
    let metadata = vec![(String::from("owner"), String::from("alice"))];
    let pd = ProgramData::new(tree, &location, "x", &metadata, &vec![], None).unwrap();
    let xdp = XdpProgram::new(pd, 1, "eth0", &XdpProceedOn::default()).unwrap();
    Program::Xdp(xdp)
}

#[test]
fn filter_compares_daemon_kind_not_ext() {
    let store = temp_store("ext");
    let prog = xdp_program(&store, "ext-prog");
    // the kernel reports the dispatcher-extension type (28) for this
    // program, but the filter goes by the daemon's kind
    let ext_filter = ListFilter::new(Some(28), vec![], false);
    assert_eq!(ext_filter.matches(&prog).unwrap(), false);
    let xdp_filter = ListFilter::new(Some(6), vec![], false);
    assert_eq!(xdp_filter.matches(&prog).unwrap(), true);
}

#[test]
fn filter_on_metadata() {
    let store = temp_store("meta");
    let prog = xdp_program(&store, "meta-prog");
    let hit = ListFilter::new(
        None,
        vec![(String::from("owner"), String::from("alice"))],
        false,
    );
    assert_eq!(hit.matches(&prog).unwrap(), true);
    let miss = ListFilter::new(
        None,
        vec![(String::from("owner"), String::from("bob"))],
        false,
    );
    assert_eq!(miss.matches(&prog).unwrap(), false);
    let absent = ListFilter::new(
        None,
        vec![(String::from("tenant"), String::from("alice"))],
        false,
    );
    assert_eq!(absent.matches(&prog).unwrap(), false);
}

#[test]
fn filter_on_unsupported_programs() {
    let store = temp_store("unsup");
    let tree = store.open_tree(b"unsup-prog").unwrap();
    let location = Location::File(String::from("/tmp/y.o"));
    let mut pd = ProgramData::new(tree, &location, "y", &vec![], &vec![], None).unwrap();
    pd.set_kernel_info(&KernelProgramData {
        id: 900,
        bpfman_prog_id: 0,
        name: String::from("y"),
        program_type: 12,
        loaded_at: String::from("now"),
        tag: String::from("00"),
        gpl_compatible: true,
        btf_id: None,
        bytes_xlated: 16,
        jited: false,
        bytes_jited: 0,
        bytes_memlock: 4096,
        verified_insns: 9,
    })
    .unwrap();
    assert_eq!(pd.get_kernel_program_type().unwrap(), 12);
    assert_eq!(pd.get_kernel_id().unwrap(), 900);
    let prog = Program::Unsupported(pd);
    // daemon-only filters skip it
    let daemon_only = ListFilter::new(None, vec![], true);
    assert_eq!(daemon_only.matches(&prog).unwrap(), false);
    // a metadata selector skips it too
    let with_meta = ListFilter::new(
        None,
        vec![(String::from("k"), String::from("v"))],
        false,
    );
    assert_eq!(with_meta.matches(&prog).unwrap(), false);
    // type filtering goes by the kernel-recorded type
    let same_type = ListFilter::new(Some(12), vec![], false);
    assert_eq!(same_type.matches(&prog).unwrap(), true);
    let other_type = ListFilter::new(Some(6), vec![], false);
    assert_eq!(other_type.matches(&prog).unwrap(), false);
}

#[test]
fn map_pinning_excludes_initialiser_sections() {
    assert!(!should_map_be_pinned("my_prog.rodata"));
    assert!(!should_map_be_pinned(".bss"));
    assert!(!should_map_be_pinned("foo.data.bar"));
    assert!(should_map_be_pinned("counters"));
    assert!(should_map_be_pinned("xdp_stats_map"));
}

#[test]
fn pin_paths_are_per_id() {
    assert_eq!(prog_pin_path(42), "/run/bpfd/fs/prog_42");
    assert_eq!(prog_link_pin_path(42), "/run/bpfd/fs/prog_42_link");
    assert_eq!(prog_pin_path(0), "/run/bpfd/fs/prog_0");
}

#[test]
fn decimal_rendering() {
    assert_eq!(u32_to_string(0), "0");
    assert_eq!(u32_to_string(4294967295), "4294967295");
    assert_eq!(i32_to_string(-7), "-7");
    assert_eq!(i32_to_string(-2147483648), "-2147483648");
    assert_eq!(i32_to_string(12345), "12345");
}
