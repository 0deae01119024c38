//! The sled-backed registry: fields round-trip through the store,
//! and the image symbol check guards what is persisted.

use bpfman::chain::ChainEntry;
use bpfman::data::{create_program_tree, program_tree_name, BytecodeImage, Location, ProgramData};
use bpfman::engine::{dispatcher_tree_name, Dispatcher, DispatcherKey};
use bpfman::errors::BpfmanError;
use bpfman::programs::{Program, TcProgram, XdpProgram};
use bpfman::proceed_on::{TcProceedOn, XdpProceedOn};
use bpfman::store::{decide_version, Store};
use bpfman::types::{Direction, ProgramType};

fn temp_store(tag: &str) -> Store {
    let path = format!("/tmp/bpfman-test-{tag}");
    Store::open(&path).unwrap()
}

fn sample_data(store: &Store, tag: &str) -> ProgramData {
    let tree = store.open_tree(tag.as_bytes()).unwrap();
    let location = Location::File(String::from("/usr/share/bpf/sample.o"));
    let metadata = vec![
        (String::from("owner"), String::from("alice")),
        (String::from("team"), String::from("net")),
    ];
    let global_data = vec![(String::from("threshold"), vec![1u8, 0, 0, 0])];
    ProgramData::new(tree, &location, "sample_prog", &metadata, &global_data, Some(7)).unwrap()
}

#[test]
fn program_fields_round_trip() {
    let store = temp_store("fields");
    let pd = sample_data(&store, "fields");
    assert_eq!(pd.get_name().unwrap(), "sample_prog");
    match pd.get_location().unwrap() {
        Location::File(p) => assert_eq!(p, "/usr/share/bpf/sample.o"),
        _ => panic!("expected a file location"),
    }
    assert_eq!(pd.get_map_owner_id().unwrap(), Some(7));
    let metadata = pd.get_metadata().unwrap();
    assert_eq!(metadata.len(), 2);
    assert!(metadata
        .iter()
        .any(|(k, v)| k == "owner" && v == "alice"));
    assert!(metadata.iter().any(|(k, v)| k == "team" && v == "net"));
    let global = pd.get_global_data().unwrap();
    assert_eq!(global.len(), 1);
    assert_eq!(global[0].0, "threshold");
    assert_eq!(global[0].1, vec![1u8, 0, 0, 0]);
}

#[test]
fn image_location_round_trips() {
    let store = temp_store("image");
    let tree = store.open_tree(b"image-prog").unwrap();
    let image = BytecodeImage::new(
        String::from("quay.io/example/app:latest"),
        1,
        Some(String::from("user")),
        None,
    );
    assert_eq!(image.get_url(), "quay.io/example/app:latest");
    let location = Location::Image(image);
    let pd = ProgramData::new(tree, &location, "entry", &vec![], &vec![], None).unwrap();
    match pd.get_location().unwrap() {
        Location::Image(img) => {
            assert_eq!(img.image_url, "quay.io/example/app:latest");
            assert_eq!(img.image_pull_policy.to_i32(), 1);
            assert_eq!(img.username.as_deref(), Some("user"));
            assert!(img.password.is_none());
        }
        _ => panic!("expected an image location"),
    }
}

#[test]
fn ids_are_stored_and_read_back() {
    let store = temp_store("ids");
    let tree = store.open_tree(b"ids-prog").unwrap();
    let location = Location::File(String::from("/tmp/x.o"));
    let mut pd = ProgramData::new(tree, &location, "p", &vec![], &vec![], None).unwrap();
    pd.set_id(42).unwrap();
    assert_eq!(pd.get_id().unwrap(), 42);
    // no sharing list was ever stored
    assert!(pd.get_maps_used_by().is_err());
}

#[test]
fn swap_tree_moves_a_program_to_its_id() {
    let store = temp_store("swap");
    let pd = sample_data(&store, "swap-tmp");
    let mut pd = pd;
    pd.swap_tree(&store, 55).unwrap();
    assert_eq!(pd.get_id().unwrap(), 55);
    assert_eq!(pd.get_name().unwrap(), "sample_prog");
    let tree = store.open_tree(&program_tree_name(55)).unwrap();
    let back = Program::new_from_db(55, tree);
    // the sample holds no program kind, so the rebuild is refused
    assert!(back.is_err());
}

#[test]
fn xdp_program_round_trips() {
    let store = temp_store("xdp");
    let pd = sample_data(&store, "xdp-prog");
    let proceed_on = XdpProceedOn::default();
    let mut xdp = XdpProgram::new(pd, 50, "eth0", &proceed_on).unwrap();
    assert_eq!(xdp.get_priority().unwrap(), 50);
    assert_eq!(xdp.get_iface().unwrap(), "eth0");
    assert_eq!(xdp.get_attached().unwrap(), false);
    assert_eq!(xdp.get_current_position().unwrap(), None);
    assert_eq!(xdp.get_if_index().unwrap(), None);
    let read_back = xdp.get_proceed_on().unwrap();
    assert_eq!(read_back.mask(), (1u32 << 2) | (1u32 << 31));
    xdp.get_data_mut().swap_tree(&store, 77).unwrap();
    let tree = store.open_tree(&program_tree_name(77)).unwrap();
    let prog = Program::new_from_db(77, tree).unwrap();
    assert!(matches!(prog, Program::Xdp(_)));
    assert_eq!(prog.kind().unwrap(), ProgramType::Xdp);
    assert_eq!(prog.priority().unwrap(), 50);
    assert_eq!(prog.if_name().unwrap(), "eth0");
    assert_eq!(prog.attached().unwrap(), false);
    assert_eq!(prog.direction().unwrap(), None);
}

#[test]
fn tc_program_round_trips() {
    let store = temp_store("tc");
    let pd = sample_data(&store, "tc-prog");
    let proceed_on = TcProceedOn::default();
    let mut tc = TcProgram::new(pd, 20, "eth0", &proceed_on, Direction::Ingress).unwrap();
    assert_eq!(tc.get_direction().unwrap(), Direction::Ingress);
    assert_eq!(tc.get_priority().unwrap(), 20);
    tc.get_data_mut().swap_tree(&store, 78).unwrap();
    let tree = store.open_tree(&program_tree_name(78)).unwrap();
    let prog = Program::new_from_db(78, tree).unwrap();
    assert!(matches!(prog, Program::Tc(_)));
    assert_eq!(prog.kind().unwrap(), ProgramType::Tc);
    assert_eq!(prog.direction().unwrap(), Some(Direction::Ingress));
    let id = prog.dispatcher_id();
    // the interface index is not resolved yet, so no dispatcher is named
    assert!(id.is_err());
}

#[test]
fn fresh_program_trees_have_fresh_ids() {
    let store = temp_store("fresh");
    let (_tree_a, id_a) = create_program_tree(&store).unwrap();
    let (_tree_b, id_b) = create_program_tree(&store).unwrap();
    assert!(id_a <= u16::MAX as u32);
    assert!(id_b <= u16::MAX as u32);
}

#[test]
fn image_without_declared_symbol() {
    let store = temp_store("symbols");
    let tree = store.open_tree(b"sym-prog").unwrap();
    let image = BytecodeImage::new(String::from("quay.io/example/app"), 0, None, None);
    let location = Location::Image(image);
    let mut pd =
        ProgramData::new(tree, &location, "unknown_fn", &vec![], &vec![], None).unwrap();
    let symbols = vec![String::from("classifier")];
    match pd.set_program_bytes(&vec![0u8, 1, 2], &symbols) {
        Err(BpfmanError::ProgramNotFoundInBytecode {
            bytecode_image,
            expected_prog_name,
            program_names,
        }) => {
            assert_eq!(bytecode_image, "quay.io/example/app");
            assert_eq!(expected_prog_name, "unknown_fn");
            assert_eq!(program_names, vec![String::from("classifier")]);
        }
        _ => panic!("expected the symbol check to fail"),
    }
    // nothing was persisted
    assert!(pd.get_program_bytes().is_err());
    // with the right declared name the bytes are stored
    let tree = store.open_tree(b"sym-prog-2").unwrap();
    let image = BytecodeImage::new(String::from("quay.io/example/app"), 0, None, None);
    let mut pd = ProgramData::new(
        tree,
        &Location::Image(image),
        "classifier",
        &vec![],
        &vec![],
        None,
    )
    .unwrap();
    pd.set_program_bytes(&vec![7u8, 8], &symbols).unwrap();
    assert_eq!(pd.get_program_bytes().unwrap(), vec![7u8, 8]);
}

#[test]
fn dispatcher_state_survives_the_store() {
    let store = temp_store("dispatcher");
    let key = DispatcherKey {
        if_index: 3,
        direction: Some(Direction::Ingress),
    };
    let mut tree = store.open_tree(&dispatcher_tree_name(&key)).unwrap();
    let d = Dispatcher {
        revision: 3,
        chain: vec![ChainEntry::new(10, 5), ChainEntry::new(20, 9)],
    };
    d.save(&mut tree).unwrap();
    let back = Dispatcher::load(&tree).unwrap();
    assert_eq!(back.revision, 3);
    assert_eq!(back.chain, vec![ChainEntry::new(10, 5), ChainEntry::new(20, 9)]);
    // a hook with another direction has its own tree
    let other = DispatcherKey {
        if_index: 3,
        direction: Some(Direction::Egress),
    };
    assert_ne!(dispatcher_tree_name(&key), dispatcher_tree_name(&other));
}

#[test]
fn load_makes_a_scratch_program_durable() {
    let store = temp_store("load");
    let mut pd = sample_data(&store, "load-prog");
    pd.load(&store).unwrap();
    assert_eq!(pd.get_name().unwrap(), "sample_prog");
    assert_eq!(pd.get_map_owner_id().unwrap(), Some(7));
}

#[test]
fn reopened_store_reports_what_was_acknowledged() {
    let path = "/tmp/bpfman-test-reopen";
    {
        let store = Store::open(path).unwrap();
        let tree = store.open_tree(b"reopen-tmp").unwrap();
        let location = Location::File(String::from("/tmp/z.o"));
        let pd = ProgramData::new(tree, &location, "zprog", &vec![], &vec![], None).unwrap();
        let xdp = XdpProgram::new(pd, 9, "eth9", &XdpProceedOn::default()).unwrap();
        let mut xdp = xdp;
        xdp.get_data_mut().swap_tree(&store, 91).unwrap();
    }
    let store = Store::open(path).unwrap();
    let tree = store.open_tree(&program_tree_name(91)).unwrap();
    let prog = Program::new_from_db(91, tree).unwrap();
    assert_eq!(prog.priority().unwrap(), 9);
    assert_eq!(prog.if_name().unwrap(), "eth9");
}

#[test]
fn empty_program_names_are_rejected() {
    let store = temp_store("noname");
    let tree = store.open_tree(b"noname-prog").unwrap();
    let location = Location::File(String::from("/tmp/x.o"));
    let r = ProgramData::new(tree, &location, "", &vec![], &vec![], None);
    assert!(r.is_err());
}

#[test]
fn map_sharing_chains_stay_shallow() {
    let store = temp_store("owner");
    let tree = store.open_tree(b"owner-root").unwrap();
    let location = Location::File(String::from("/tmp/x.o"));
    let root = ProgramData::new(tree, &location, "root_prog", &vec![], &vec![], None).unwrap();
    // the root owns its maps, so sharing from it is allowed
    assert!(ProgramData::check_map_owner(&root).is_ok());
    let tree = store.open_tree(b"owner-leaf").unwrap();
    let location = Location::File(String::from("/tmp/y.o"));
    let leaf =
        ProgramData::new(tree, &location, "leaf_prog", &vec![], &vec![], Some(1)).unwrap();
    // the leaf already shares another program's maps: depth two is rejected
    assert!(ProgramData::check_map_owner(&leaf).is_err());
}

#[test]
fn store_version_is_checked_on_start() {
    let store = temp_store("version");
    store.check_version(1).unwrap();
    store.check_version(1).unwrap();
    assert!(store.check_version(2).is_err());
}

#[test]
fn version_verdicts_are_exact() {
    assert_eq!(decide_version(Some(1), 1).unwrap(), false);
    assert_eq!(decide_version(None, 1).unwrap(), true);
    assert!(decide_version(Some(2), 1).is_err());
}

#[test]
fn default_map_directory_is_per_id() {
    assert_eq!(
        bpfman::utils::default_map_pin_path(7),
        "/run/bpfd/fs/maps/7"
    );
}

#[test]
fn chosen_action_sets_read_back() {
    let store = temp_store("actions");
    let pd = sample_data(&store, "actions-prog");
    let names = vec![
        String::from("aborted"),
        String::from("tx"),
        String::from("dispatcher_return"),
    ];
    let proceed_on = XdpProceedOn::from_strings(&names).unwrap();
    let xdp = XdpProgram::new(pd, 1, "eth1", &proceed_on).unwrap();
    let back = xdp.get_proceed_on().unwrap();
    assert_eq!(back.as_action_vec(), vec![0, 3, 31]);
    assert_eq!(back.mask(), (1 << 0) | (1 << 3) | (1u32 << 31));
}

#[test]
fn placements_follow_the_rebuilt_chain() {
    let store = temp_store("placement");
    let location = Location::File(String::from("/tmp/a.o"));
    let tree = store.open_tree(b"place-a").unwrap();
    let pd = ProgramData::new(tree, &location, "prog_a", &vec![], &vec![], None).unwrap();
    let mut a = XdpProgram::new(pd, 50, "eth0", &XdpProceedOn::default()).unwrap();
    let tree = store.open_tree(b"place-b").unwrap();
    let pd = ProgramData::new(tree, &location, "prog_b", &vec![], &vec![], None).unwrap();
    let mut b = XdpProgram::new(pd, 10, "eth0", &XdpProceedOn::default()).unwrap();

    let mut world = bpfman::engine::World::new();
    let eth0 = DispatcherKey {
        if_index: 3,
        direction: None,
    };
    world
        .add_program(eth0, ChainEntry::new(50, 1), bpfman::engine::FailPoint::NoFailure)
        .unwrap();
    let chain = world
        .add_program(eth0, ChainEntry::new(10, 2), bpfman::engine::FailPoint::NoFailure)
        .unwrap();

    assert_eq!(a.record_placement(&chain, 1).unwrap(), 1);
    assert_eq!(b.record_placement(&chain, 2).unwrap(), 0);
    assert_eq!(a.get_current_position().unwrap(), Some(1));
    assert_eq!(b.get_current_position().unwrap(), Some(0));
    assert_eq!(a.get_attached().unwrap(), true);
    assert_eq!(b.get_attached().unwrap(), true);
    match a.record_placement(&chain, 99) {
        Err(BpfmanError::NotFound { id }) => assert_eq!(id, 99),
        _ => panic!("expected a not-found error"),
    }
}
