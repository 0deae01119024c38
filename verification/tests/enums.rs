//! The enum encodings round-trip, and bad encodings are rejected.

use bpfman::errors::ParseError;
use bpfman::types::{program_type_of_section, Direction, ImagePullPolicy, MapType, ProbeType, ProgramType};

#[test]
fn program_type_u32_round_trip() {
    for v in 0u32..32u32 {
        let p = ProgramType::from_u32(v).unwrap();
        assert_eq!(p.to_u32(), v);
    }
    assert!(matches!(
        ProgramType::from_u32(32),
        Err(ParseError::InvalidProgramType { .. })
    ));
}

#[test]
fn program_type_str_round_trip() {
    for v in 0u32..32u32 {
        let p = ProgramType::from_u32(v).unwrap();
        let q = ProgramType::from_str(p.as_str()).unwrap();
        assert_eq!(q, p);
    }
    match ProgramType::from_str("not_a_type") {
        Err(ParseError::InvalidProgramType { program }) => assert_eq!(program, "not_a_type"),
        _ => panic!("expected an invalid-program-type error"),
    }
}

#[test]
fn program_type_exact_values() {
    assert_eq!(ProgramType::Xdp.to_u32(), 6);
    assert_eq!(ProgramType::Tc.to_u32(), 3);
    assert_eq!(ProgramType::Ext.to_u32(), 28);
    assert_eq!(ProgramType::Xdp.as_str(), "xdp");
    assert_eq!(ProgramType::SkLookup.as_str(), "sk_lookup");
}

#[test]
fn direction_round_trips() {
    for d in [Direction::Ingress, Direction::Egress] {
        assert_eq!(Direction::from_u32(d.to_u32()).unwrap(), d);
        assert_eq!(Direction::from_str(d.as_str()).unwrap(), d);
    }
    assert_eq!(Direction::Ingress.to_u32(), 1);
    assert_eq!(Direction::Egress.as_str(), "egress");
    match Direction::from_str("sideways") {
        Err(ParseError::InvalidDirection { direction }) => assert_eq!(direction, "sideways"),
        _ => panic!("expected an invalid-direction error"),
    }
    match Direction::from_u32(3) {
        Err(ParseError::InvalidDirection { direction }) => assert_eq!(direction, "3"),
        _ => panic!("expected an invalid-direction error"),
    }
}

#[test]
fn pull_policy_round_trips() {
    for p in [
        ImagePullPolicy::Always,
        ImagePullPolicy::IfNotPresent,
        ImagePullPolicy::Never,
    ] {
        assert_eq!(ImagePullPolicy::from_i32(p.to_i32()).unwrap(), p);
        assert_eq!(ImagePullPolicy::from_str(p.as_str()).unwrap(), p);
    }
    assert_eq!(ImagePullPolicy::IfNotPresent.as_str(), "IfNotPresent");
    assert!(matches!(
        ImagePullPolicy::from_i32(3),
        Err(ParseError::InvalidBytecodeImagePullPolicy { .. })
    ));
}

#[test]
fn probe_type_round_trips() {
    for v in 0i32..4i32 {
        let p = ProbeType::from_i32(v).unwrap();
        assert_eq!(p.to_i32(), v);
    }
    assert_eq!(ProbeType::Kretprobe.as_str(), "kretprobe");
    assert!(matches!(
        ProbeType::from_i32(4),
        Err(ParseError::InvalidProbeType { .. })
    ));
}

#[test]
fn map_type_decoding() {
    assert!(matches!(MapType::from_u32(2), Some(MapType::Array)));
    assert!(matches!(MapType::from_u32(27), Some(MapType::Ringbuf)));
    assert!(MapType::from_u32(19).is_none());
    assert!(MapType::from_u32(21).is_none());
    assert!(MapType::from_u32(34).is_none());
    assert_eq!(MapType::ProgArray.as_str(), "prog_array");
}

#[test]
fn section_names_declare_their_program_type() {
    assert_eq!(program_type_of_section("xdp"), Some(ProgramType::Xdp));
    assert_eq!(
        program_type_of_section("xdp/pass_all"),
        Some(ProgramType::Xdp)
    );
    assert_eq!(
        program_type_of_section("kretprobe/do_sys_open"),
        Some(ProgramType::Probe)
    );
    assert_eq!(
        program_type_of_section("classifier/ingress_filter"),
        Some(ProgramType::Tc)
    );
    assert_eq!(
        program_type_of_section("cgroup/connect4/allow"),
        Some(ProgramType::CgroupSockAddr)
    );
    assert_eq!(
        program_type_of_section("cgroup/skb"),
        Some(ProgramType::CgroupSkb)
    );
    assert_eq!(program_type_of_section("freplace/next"), Some(ProgramType::Ext));
    assert_eq!(program_type_of_section("fexit.s/close"), Some(ProgramType::Tracing));
    assert_eq!(program_type_of_section("cgroup/unknown"), None);
    assert_eq!(program_type_of_section("maps"), None);
    assert_eq!(program_type_of_section(""), None);
}
