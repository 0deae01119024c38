//! The proceed-on mask laws and encodings.

use bpfman::errors::ParseError;
use bpfman::proceed_on::{TcProceedOn, TcProceedOnEntry, XdpProceedOn, XdpProceedOnEntry};

#[test]
fn xdp_default_mask_law() {
    let d = XdpProceedOn::default();
    assert_eq!(d.mask(), (1u32 << 2) | (1u32 << 31));
}

#[test]
fn tc_default_mask_law() {
    let d = TcProceedOn::default();
    assert_eq!(d.mask(), (1u32 << (3 + 1)) | (1u32 << (30 + 1)));
}

#[test]
fn empty_proceed_on_defaults() {
    let x = XdpProceedOn::from_int32s(&vec![]).unwrap();
    assert_eq!(x.as_action_vec(), vec![2, 31]);
    let t = TcProceedOn::from_int32s(&vec![]).unwrap();
    assert_eq!(t.as_action_vec(), vec![3, 30]);
    let e = XdpProceedOn::from_entries(vec![]);
    assert_eq!(e.as_action_vec(), vec![2, 31]);
    let xs = XdpProceedOn::from_strings(&vec![]).unwrap();
    assert_eq!(xs.mask(), (1u32 << 2) | (1u32 << 31));
    let ts = TcProceedOn::from_strings(&vec![]).unwrap();
    assert_eq!(ts.mask(), (1u32 << (3 + 1)) | (1u32 << (30 + 1)));
}

#[test]
fn xdp_mask_of_chosen_actions() {
    let p = XdpProceedOn::from_int32s(&vec![0, 1, 4]).unwrap();
    assert_eq!(p.mask(), (1 << 0) | (1 << 1) | (1 << 4));
    assert_eq!(p.as_action_vec(), vec![0, 1, 4]);
}

#[test]
fn tc_mask_shifts_values_by_one() {
    let p = TcProceedOn::from_int32s(&vec![-1, 0, 8]).unwrap();
    assert_eq!(p.mask(), (1 << 0) | (1 << 1) | (1 << 9));
}

#[test]
fn proceed_on_entry_round_trips() {
    for v in [0, 1, 2, 3, 4, 31] {
        let e = XdpProceedOnEntry::from_i32(v).unwrap();
        assert_eq!(e.to_i32(), v);
        let s = XdpProceedOnEntry::from_str(e.as_str()).unwrap();
        assert_eq!(s.to_i32(), v);
    }
    for v in [-1, 0, 1, 2, 3, 4, 5, 6, 7, 8, 30] {
        let e = TcProceedOnEntry::from_i32(v).unwrap();
        assert_eq!(e.to_i32(), v);
        let s = TcProceedOnEntry::from_str(e.as_str()).unwrap();
        assert_eq!(s.to_i32(), v);
    }
}

#[test]
fn proceed_on_from_strings() {
    let names = vec![String::from("pass"), String::from("dispatcher_return")];
    let p = XdpProceedOn::from_strings(&names).unwrap();
    assert_eq!(p.mask(), (1u32 << 2) | (1u32 << 31));
    let bad = vec![String::from("pass"), String::from("sideways")];
    match XdpProceedOn::from_strings(&bad) {
        Err(ParseError::InvalidProceedOn { proceedon }) => assert_eq!(proceedon, "sideways"),
        _ => panic!("expected an invalid-proceed-on error"),
    }
    let tc = TcProceedOn::from_strings(&vec![String::from("ok"), String::from("trap")]).unwrap();
    assert_eq!(tc.as_action_vec(), vec![0, 8]);
}

#[test]
fn invalid_proceed_on_integer() {
    match XdpProceedOn::from_int32s(&vec![5]) {
        Err(ParseError::InvalidProceedOn { proceedon }) => assert_eq!(proceedon, "5"),
        _ => panic!("expected an invalid-proceed-on error"),
    }
    assert!(TcProceedOn::from_int32s(&vec![9]).is_err());
}
