//! The `proceed_on` action sets: for each hook type, the set of
//! client-program return actions on which the dispatcher continues
//! down the chain, and the bitmask encoding of that set that is
//! written into the dispatcher's configuration.

use vstd::prelude::*;

use crate::errors::ParseError;
use crate::strutil::{spec_i32_decimal, i32_to_string, str_eq};

verus! {

/// A return action of an XDP program on which the dispatcher may
/// proceed. Mask bit numbers equal the kernel action values, with
/// the dispatcher's own sentinel at bit 31.
#[derive(Copy, Clone, Debug, Eq, PartialEq, Structural)]
pub enum XdpProceedOnEntry {
    Aborted,
    Drop,
    Pass,
    Tx,
    Redirect,
    DispatcherReturn,
}

/// A return action of a TC classifier on which the dispatcher may
/// proceed. Valid TC return values range from -1 to 8, and -1 is not
/// a valid shift, so an action's mask bit is its value plus one; the
/// dispatcher makes the same adjustment before comparing.
#[derive(Copy, Clone, Debug, Eq, PartialEq, Structural)]
pub enum TcProceedOnEntry {
    Unspec,
    Okay,
    Reclassify,
    Shot,
    Pipe,
    Stolen,
    Queued,
    Repeat,
    Redirect,
    Trap,
    DispatcherReturn,
}

/// The integer each action encodes to.
pub open spec fn spec_xdp_action_i32(e: XdpProceedOnEntry) -> i32 {
    match e {
        XdpProceedOnEntry::Aborted => 0,
        XdpProceedOnEntry::Drop => 1,
        XdpProceedOnEntry::Pass => 2,
        XdpProceedOnEntry::Tx => 3,
        XdpProceedOnEntry::Redirect => 4,
        XdpProceedOnEntry::DispatcherReturn => 31,
    }
}

/// The action, if any, that an integer decodes to.
pub open spec fn spec_xdp_action_from_i32(v: i32) -> Option<XdpProceedOnEntry> {
    if v == 0 {
        Some(XdpProceedOnEntry::Aborted)
    } else if v == 1 {
        Some(XdpProceedOnEntry::Drop)
    } else if v == 2 {
        Some(XdpProceedOnEntry::Pass)
    } else if v == 3 {
        Some(XdpProceedOnEntry::Tx)
    } else if v == 4 {
        Some(XdpProceedOnEntry::Redirect)
    } else if v == 31 {
        Some(XdpProceedOnEntry::DispatcherReturn)
    } else {
        None
    }
}

/// The lower-case name each action encodes to.
pub open spec fn spec_xdp_action_str(e: XdpProceedOnEntry) -> Seq<char> {
    match e {
        XdpProceedOnEntry::Aborted => "aborted"@,
        XdpProceedOnEntry::Drop => "drop"@,
        XdpProceedOnEntry::Pass => "pass"@,
        XdpProceedOnEntry::Tx => "tx"@,
        XdpProceedOnEntry::Redirect => "redirect"@,
        XdpProceedOnEntry::DispatcherReturn => "dispatcher_return"@,
    }
}

/// The action, if any, that a name decodes to.
pub open spec fn spec_xdp_action_from_str(s: Seq<char>) -> Option<XdpProceedOnEntry> {
    if s == "aborted"@ {
        Some(XdpProceedOnEntry::Aborted)
    } else if s == "drop"@ {
        Some(XdpProceedOnEntry::Drop)
    } else if s == "pass"@ {
        Some(XdpProceedOnEntry::Pass)
    } else if s == "tx"@ {
        Some(XdpProceedOnEntry::Tx)
    } else if s == "redirect"@ {
        Some(XdpProceedOnEntry::Redirect)
    } else if s == "dispatcher_return"@ {
        Some(XdpProceedOnEntry::DispatcherReturn)
    } else {
        None
    }
}

/// The dispatcher-mask bit each action contributes: bit number
/// `value + 0` of the mask.
pub open spec fn spec_xdp_action_bit(e: XdpProceedOnEntry) -> u32 {
    match e {
        XdpProceedOnEntry::Aborted => 0x1,
        XdpProceedOnEntry::Drop => 0x2,
        XdpProceedOnEntry::Pass => 0x4,
        XdpProceedOnEntry::Tx => 0x8,
        XdpProceedOnEntry::Redirect => 0x10,
        XdpProceedOnEntry::DispatcherReturn => 0x80000000,
    }
}

impl XdpProceedOnEntry {
    /// The integer encoding of this action.
    pub fn to_i32(&self) -> (r: i32)
        ensures
            r == spec_xdp_action_i32(*self),
    {
        match self {
            XdpProceedOnEntry::Aborted => 0,
            XdpProceedOnEntry::Drop => 1,
            XdpProceedOnEntry::Pass => 2,
            XdpProceedOnEntry::Tx => 3,
            XdpProceedOnEntry::Redirect => 4,
            XdpProceedOnEntry::DispatcherReturn => 31,
        }
    }

    /// Decodes an action from its integer encoding.
    pub fn from_i32(v: i32) -> (r: Result<XdpProceedOnEntry, ParseError>)
        ensures
            spec_xdp_action_from_i32(v) matches Some(e) ==> r == Ok::<XdpProceedOnEntry, ParseError>(e),
            spec_xdp_action_from_i32(v) is None ==> (r matches Err(ParseError::InvalidProceedOn {
                proceedon,
            }) && proceedon@ == spec_i32_decimal(v)),
    {
        match v {
            0 => Ok(XdpProceedOnEntry::Aborted),
            1 => Ok(XdpProceedOnEntry::Drop),
            2 => Ok(XdpProceedOnEntry::Pass),
            3 => Ok(XdpProceedOnEntry::Tx),
            4 => Ok(XdpProceedOnEntry::Redirect),
            31 => Ok(XdpProceedOnEntry::DispatcherReturn),
            _ => Err(ParseError::InvalidProceedOn { proceedon: i32_to_string(v) }),
        }
    }

    /// The lower-case name of this action.
    pub fn as_str(&self) -> (r: &'static str)
        ensures
            r@ == spec_xdp_action_str(*self),
    {
        match self {
            XdpProceedOnEntry::Aborted => "aborted",
            XdpProceedOnEntry::Drop => "drop",
            XdpProceedOnEntry::Pass => "pass",
            XdpProceedOnEntry::Tx => "tx",
            XdpProceedOnEntry::Redirect => "redirect",
            XdpProceedOnEntry::DispatcherReturn => "dispatcher_return",
        }
    }

    /// Decodes an action from its lower-case name.
    pub fn from_str(s: &str) -> (r: Result<XdpProceedOnEntry, ParseError>)
        ensures
            spec_xdp_action_from_str(s@) matches Some(e) ==> r == Ok::<XdpProceedOnEntry, ParseError>(e),
            spec_xdp_action_from_str(s@) is None ==> (r matches Err(ParseError::InvalidProceedOn {
                proceedon,
            }) && proceedon@ == s@),
    {
        if str_eq(s, "aborted") {
            Ok(XdpProceedOnEntry::Aborted)
        } else if str_eq(s, "drop") {
            Ok(XdpProceedOnEntry::Drop)
        } else if str_eq(s, "pass") {
            Ok(XdpProceedOnEntry::Pass)
        } else if str_eq(s, "tx") {
            Ok(XdpProceedOnEntry::Tx)
        } else if str_eq(s, "redirect") {
            Ok(XdpProceedOnEntry::Redirect)
        } else if str_eq(s, "dispatcher_return") {
            Ok(XdpProceedOnEntry::DispatcherReturn)
        } else {
            Err(ParseError::InvalidProceedOn { proceedon: String::from_str(s) })
        }
    }

    /// The dispatcher-mask bit of this action.
    pub fn mask_bit(&self) -> (r: u32)
        ensures
            r == spec_xdp_action_bit(*self),
    {
        match self {
            XdpProceedOnEntry::Aborted => 0x1,
            XdpProceedOnEntry::Drop => 0x2,
            XdpProceedOnEntry::Pass => 0x4,
            XdpProceedOnEntry::Tx => 0x8,
            XdpProceedOnEntry::Redirect => 0x10,
            XdpProceedOnEntry::DispatcherReturn => 0x80000000,
        }
    }
}

/// Every action round-trips through its integer encoding.
pub proof fn lemma_xdp_action_i32_round_trip(e: XdpProceedOnEntry, v: i32)
    ensures
        spec_xdp_action_from_i32(spec_xdp_action_i32(e)) == Some(e),
        spec_xdp_action_from_i32(v) matches Some(q) ==> spec_xdp_action_i32(q) == v,
{
}

/// Every action round-trips through its string encoding.
pub proof fn lemma_xdp_action_str_round_trip(e: XdpProceedOnEntry, s: Seq<char>)
    ensures
        spec_xdp_action_from_str(spec_xdp_action_str(e)) == Some(e),
        spec_xdp_action_from_str(s) matches Some(q) ==> spec_xdp_action_str(q) == s,
{
    reveal_strlit("aborted");
    reveal_strlit("drop");
    reveal_strlit("pass");
    reveal_strlit("tx");
    reveal_strlit("redirect");
    reveal_strlit("dispatcher_return");
    assert(("aborted"@).len() == 7);
    assert(("drop"@).len() == 4);
    assert(("pass"@).len() == 4);
    assert(("tx"@).len() == 2);
    assert(("redirect"@).len() == 8);
    assert(("dispatcher_return"@).len() == 17);
    assert(("pass"@)[0] == 'p');
    assert(("drop"@)[0] == 'd');
    assert("drop"@ != "aborted"@);
    assert("pass"@ != "aborted"@);
    assert("pass"@ != "drop"@);
    assert("tx"@ != "aborted"@);
    assert("tx"@ != "drop"@);
    assert("tx"@ != "pass"@);
    assert("redirect"@ != "aborted"@);
    assert("redirect"@ != "drop"@);
    assert("redirect"@ != "pass"@);
    assert("redirect"@ != "tx"@);
    assert("dispatcher_return"@ != "aborted"@);
    assert("dispatcher_return"@ != "drop"@);
    assert("dispatcher_return"@ != "pass"@);
    assert("dispatcher_return"@ != "tx"@);
    assert("dispatcher_return"@ != "redirect"@);
}

/// The integer each action encodes to.
pub open spec fn spec_tc_action_i32(e: TcProceedOnEntry) -> i32 {
    match e {
        TcProceedOnEntry::Unspec => -1i32,
        TcProceedOnEntry::Okay => 0,
        TcProceedOnEntry::Reclassify => 1,
        TcProceedOnEntry::Shot => 2,
        TcProceedOnEntry::Pipe => 3,
        TcProceedOnEntry::Stolen => 4,
        TcProceedOnEntry::Queued => 5,
        TcProceedOnEntry::Repeat => 6,
        TcProceedOnEntry::Redirect => 7,
        TcProceedOnEntry::Trap => 8,
        TcProceedOnEntry::DispatcherReturn => 30,
    }
}

/// The action, if any, that an integer decodes to.
pub open spec fn spec_tc_action_from_i32(v: i32) -> Option<TcProceedOnEntry> {
    if v == -1 {
        Some(TcProceedOnEntry::Unspec)
    } else if v == 0 {
        Some(TcProceedOnEntry::Okay)
    } else if v == 1 {
        Some(TcProceedOnEntry::Reclassify)
    } else if v == 2 {
        Some(TcProceedOnEntry::Shot)
    } else if v == 3 {
        Some(TcProceedOnEntry::Pipe)
    } else if v == 4 {
        Some(TcProceedOnEntry::Stolen)
    } else if v == 5 {
        Some(TcProceedOnEntry::Queued)
    } else if v == 6 {
        Some(TcProceedOnEntry::Repeat)
    } else if v == 7 {
        Some(TcProceedOnEntry::Redirect)
    } else if v == 8 {
        Some(TcProceedOnEntry::Trap)
    } else if v == 30 {
        Some(TcProceedOnEntry::DispatcherReturn)
    } else {
        None
    }
}

/// The lower-case name each action encodes to.
pub open spec fn spec_tc_action_str(e: TcProceedOnEntry) -> Seq<char> {
    match e {
        TcProceedOnEntry::Unspec => "unspec"@,
        TcProceedOnEntry::Okay => "ok"@,
        TcProceedOnEntry::Reclassify => "reclassify"@,
        TcProceedOnEntry::Shot => "shot"@,
        TcProceedOnEntry::Pipe => "pipe"@,
        TcProceedOnEntry::Stolen => "stolen"@,
        TcProceedOnEntry::Queued => "queued"@,
        TcProceedOnEntry::Repeat => "repeat"@,
        TcProceedOnEntry::Redirect => "redirect"@,
        TcProceedOnEntry::Trap => "trap"@,
        TcProceedOnEntry::DispatcherReturn => "dispatcher_return"@,
    }
}

/// The action, if any, that a name decodes to.
pub open spec fn spec_tc_action_from_str(s: Seq<char>) -> Option<TcProceedOnEntry> {
    if s == "unspec"@ {
        Some(TcProceedOnEntry::Unspec)
    } else if s == "ok"@ {
        Some(TcProceedOnEntry::Okay)
    } else if s == "reclassify"@ {
        Some(TcProceedOnEntry::Reclassify)
    } else if s == "shot"@ {
        Some(TcProceedOnEntry::Shot)
    } else if s == "pipe"@ {
        Some(TcProceedOnEntry::Pipe)
    } else if s == "stolen"@ {
        Some(TcProceedOnEntry::Stolen)
    } else if s == "queued"@ {
        Some(TcProceedOnEntry::Queued)
    } else if s == "repeat"@ {
        Some(TcProceedOnEntry::Repeat)
    } else if s == "redirect"@ {
        Some(TcProceedOnEntry::Redirect)
    } else if s == "trap"@ {
        Some(TcProceedOnEntry::Trap)
    } else if s == "dispatcher_return"@ {
        Some(TcProceedOnEntry::DispatcherReturn)
    } else {
        None
    }
}

/// The dispatcher-mask bit each action contributes: bit number
/// `value + 1` of the mask.
pub open spec fn spec_tc_action_bit(e: TcProceedOnEntry) -> u32 {
    match e {
        TcProceedOnEntry::Unspec => 0x1,
        TcProceedOnEntry::Okay => 0x2,
        TcProceedOnEntry::Reclassify => 0x4,
        TcProceedOnEntry::Shot => 0x8,
        TcProceedOnEntry::Pipe => 0x10,
        TcProceedOnEntry::Stolen => 0x20,
        TcProceedOnEntry::Queued => 0x40,
        TcProceedOnEntry::Repeat => 0x80,
        TcProceedOnEntry::Redirect => 0x100,
        TcProceedOnEntry::Trap => 0x200,
        TcProceedOnEntry::DispatcherReturn => 0x80000000,
    }
}

impl TcProceedOnEntry {
    /// The integer encoding of this action.
    pub fn to_i32(&self) -> (r: i32)
        ensures
            r == spec_tc_action_i32(*self),
    {
        match self {
            TcProceedOnEntry::Unspec => -1i32,
            TcProceedOnEntry::Okay => 0,
            TcProceedOnEntry::Reclassify => 1,
            TcProceedOnEntry::Shot => 2,
            TcProceedOnEntry::Pipe => 3,
            TcProceedOnEntry::Stolen => 4,
            TcProceedOnEntry::Queued => 5,
            TcProceedOnEntry::Repeat => 6,
            TcProceedOnEntry::Redirect => 7,
            TcProceedOnEntry::Trap => 8,
            TcProceedOnEntry::DispatcherReturn => 30,
        }
    }

    /// Decodes an action from its integer encoding.
    pub fn from_i32(v: i32) -> (r: Result<TcProceedOnEntry, ParseError>)
        ensures
            spec_tc_action_from_i32(v) matches Some(e) ==> r == Ok::<TcProceedOnEntry, ParseError>(e),
            spec_tc_action_from_i32(v) is None ==> (r matches Err(ParseError::InvalidProceedOn {
                proceedon,
            }) && proceedon@ == spec_i32_decimal(v)),
    {
        match v {
            -1 => Ok(TcProceedOnEntry::Unspec),
            0 => Ok(TcProceedOnEntry::Okay),
            1 => Ok(TcProceedOnEntry::Reclassify),
            2 => Ok(TcProceedOnEntry::Shot),
            3 => Ok(TcProceedOnEntry::Pipe),
            4 => Ok(TcProceedOnEntry::Stolen),
            5 => Ok(TcProceedOnEntry::Queued),
            6 => Ok(TcProceedOnEntry::Repeat),
            7 => Ok(TcProceedOnEntry::Redirect),
            8 => Ok(TcProceedOnEntry::Trap),
            30 => Ok(TcProceedOnEntry::DispatcherReturn),
            _ => Err(ParseError::InvalidProceedOn { proceedon: i32_to_string(v) }),
        }
    }

    /// The lower-case name of this action.
    pub fn as_str(&self) -> (r: &'static str)
        ensures
            r@ == spec_tc_action_str(*self),
    {
        match self {
            TcProceedOnEntry::Unspec => "unspec",
            TcProceedOnEntry::Okay => "ok",
            TcProceedOnEntry::Reclassify => "reclassify",
            TcProceedOnEntry::Shot => "shot",
            TcProceedOnEntry::Pipe => "pipe",
            TcProceedOnEntry::Stolen => "stolen",
            TcProceedOnEntry::Queued => "queued",
            TcProceedOnEntry::Repeat => "repeat",
            TcProceedOnEntry::Redirect => "redirect",
            TcProceedOnEntry::Trap => "trap",
            TcProceedOnEntry::DispatcherReturn => "dispatcher_return",
        }
    }

    /// Decodes an action from its lower-case name.
    pub fn from_str(s: &str) -> (r: Result<TcProceedOnEntry, ParseError>)
        ensures
            spec_tc_action_from_str(s@) matches Some(e) ==> r == Ok::<TcProceedOnEntry, ParseError>(e),
            spec_tc_action_from_str(s@) is None ==> (r matches Err(ParseError::InvalidProceedOn {
                proceedon,
            }) && proceedon@ == s@),
    {
        if str_eq(s, "unspec") {
            Ok(TcProceedOnEntry::Unspec)
        } else if str_eq(s, "ok") {
            Ok(TcProceedOnEntry::Okay)
        } else if str_eq(s, "reclassify") {
            Ok(TcProceedOnEntry::Reclassify)
        } else if str_eq(s, "shot") {
            Ok(TcProceedOnEntry::Shot)
        } else if str_eq(s, "pipe") {
            Ok(TcProceedOnEntry::Pipe)
        } else if str_eq(s, "stolen") {
            Ok(TcProceedOnEntry::Stolen)
        } else if str_eq(s, "queued") {
            Ok(TcProceedOnEntry::Queued)
        } else if str_eq(s, "repeat") {
            Ok(TcProceedOnEntry::Repeat)
        } else if str_eq(s, "redirect") {
            Ok(TcProceedOnEntry::Redirect)
        } else if str_eq(s, "trap") {
            Ok(TcProceedOnEntry::Trap)
        } else if str_eq(s, "dispatcher_return") {
            Ok(TcProceedOnEntry::DispatcherReturn)
        } else {
            Err(ParseError::InvalidProceedOn { proceedon: String::from_str(s) })
        }
    }

    /// The dispatcher-mask bit of this action.
    pub fn mask_bit(&self) -> (r: u32)
        ensures
            r == spec_tc_action_bit(*self),
    {
        match self {
            TcProceedOnEntry::Unspec => 0x1,
            TcProceedOnEntry::Okay => 0x2,
            TcProceedOnEntry::Reclassify => 0x4,
            TcProceedOnEntry::Shot => 0x8,
            TcProceedOnEntry::Pipe => 0x10,
            TcProceedOnEntry::Stolen => 0x20,
            TcProceedOnEntry::Queued => 0x40,
            TcProceedOnEntry::Repeat => 0x80,
            TcProceedOnEntry::Redirect => 0x100,
            TcProceedOnEntry::Trap => 0x200,
            TcProceedOnEntry::DispatcherReturn => 0x80000000,
        }
    }
}

/// Every action round-trips through its integer encoding.
pub proof fn lemma_tc_action_i32_round_trip(e: TcProceedOnEntry, v: i32)
    ensures
        spec_tc_action_from_i32(spec_tc_action_i32(e)) == Some(e),
        spec_tc_action_from_i32(v) matches Some(q) ==> spec_tc_action_i32(q) == v,
{
}

/// Every action round-trips through its string encoding.
pub proof fn lemma_tc_action_str_round_trip(e: TcProceedOnEntry, s: Seq<char>)
    ensures
        spec_tc_action_from_str(spec_tc_action_str(e)) == Some(e),
        spec_tc_action_from_str(s) matches Some(q) ==> spec_tc_action_str(q) == s,
{
    reveal_strlit("unspec");
    reveal_strlit("ok");
    reveal_strlit("reclassify");
    reveal_strlit("shot");
    reveal_strlit("pipe");
    reveal_strlit("stolen");
    reveal_strlit("queued");
    reveal_strlit("repeat");
    reveal_strlit("redirect");
    reveal_strlit("trap");
    reveal_strlit("dispatcher_return");
    assert(("unspec"@).len() == 6);
    assert(("ok"@).len() == 2);
    assert(("reclassify"@).len() == 10);
    assert(("shot"@).len() == 4);
    assert(("pipe"@).len() == 4);
    assert(("stolen"@).len() == 6);
    assert(("queued"@).len() == 6);
    assert(("repeat"@).len() == 6);
    assert(("redirect"@).len() == 8);
    assert(("trap"@).len() == 4);
    assert(("dispatcher_return"@).len() == 17);
    assert(("pipe"@)[0] == 'p');
    assert(("shot"@)[0] == 's');
    assert(("stolen"@)[0] == 's');
    assert(("unspec"@)[0] == 'u');
    assert(("queued"@)[0] == 'q');
    assert(("repeat"@)[0] == 'r');
    assert(("trap"@)[0] == 't');
    assert("ok"@ != "unspec"@);
    assert("reclassify"@ != "unspec"@);
    assert("reclassify"@ != "ok"@);
    assert("shot"@ != "unspec"@);
    assert("shot"@ != "ok"@);
    assert("shot"@ != "reclassify"@);
    assert("pipe"@ != "unspec"@);
    assert("pipe"@ != "ok"@);
    assert("pipe"@ != "reclassify"@);
    assert("pipe"@ != "shot"@);
    assert("stolen"@ != "unspec"@);
    assert("stolen"@ != "ok"@);
    assert("stolen"@ != "reclassify"@);
    assert("stolen"@ != "shot"@);
    assert("stolen"@ != "pipe"@);
    assert("queued"@ != "unspec"@);
    assert("queued"@ != "ok"@);
    assert("queued"@ != "reclassify"@);
    assert("queued"@ != "shot"@);
    assert("queued"@ != "pipe"@);
    assert("queued"@ != "stolen"@);
    assert("repeat"@ != "unspec"@);
    assert("repeat"@ != "ok"@);
    assert("repeat"@ != "reclassify"@);
    assert("repeat"@ != "shot"@);
    assert("repeat"@ != "pipe"@);
    assert("repeat"@ != "stolen"@);
    assert("repeat"@ != "queued"@);
    assert("redirect"@ != "unspec"@);
    assert("redirect"@ != "ok"@);
    assert("redirect"@ != "reclassify"@);
    assert("redirect"@ != "shot"@);
    assert("redirect"@ != "pipe"@);
    assert("redirect"@ != "stolen"@);
    assert("redirect"@ != "queued"@);
    assert("redirect"@ != "repeat"@);
    assert("trap"@ != "unspec"@);
    assert("trap"@ != "ok"@);
    assert("trap"@ != "reclassify"@);
    assert("trap"@ != "shot"@);
    assert("trap"@ != "pipe"@);
    assert("trap"@ != "stolen"@);
    assert("trap"@ != "queued"@);
    assert("trap"@ != "repeat"@);
    assert("trap"@ != "redirect"@);
    assert("dispatcher_return"@ != "unspec"@);
    assert("dispatcher_return"@ != "ok"@);
    assert("dispatcher_return"@ != "reclassify"@);
    assert("dispatcher_return"@ != "shot"@);
    assert("dispatcher_return"@ != "pipe"@);
    assert("dispatcher_return"@ != "stolen"@);
    assert("dispatcher_return"@ != "queued"@);
    assert("dispatcher_return"@ != "repeat"@);
    assert("dispatcher_return"@ != "redirect"@);
    assert("dispatcher_return"@ != "trap"@);
}

/// The mask a whole XDP action list encodes to: the bitwise or of
/// its members' bits.
pub open spec fn spec_xdp_mask(s: Seq<XdpProceedOnEntry>) -> u32
    decreases s.len(),
{
    if s.len() == 0 {
        0u32
    } else {
        spec_xdp_mask(s.drop_last()) | spec_xdp_action_bit(s.last())
    }
}

/// The mask a whole TC action list encodes to.
pub open spec fn spec_tc_mask(s: Seq<TcProceedOnEntry>) -> u32
    decreases s.len(),
{
    if s.len() == 0 {
        0u32
    } else {
        spec_tc_mask(s.drop_last()) | spec_tc_action_bit(s.last())
    }
}

/// The default XDP action set: proceed past a program that passed
/// the packet or returned the dispatcher sentinel.
pub open spec fn spec_xdp_default() -> Seq<XdpProceedOnEntry> {
    seq![XdpProceedOnEntry::Pass, XdpProceedOnEntry::DispatcherReturn]
}

/// The default TC action set.
pub open spec fn spec_tc_default() -> Seq<TcProceedOnEntry> {
    seq![TcProceedOnEntry::Pipe, TcProceedOnEntry::DispatcherReturn]
}

/// The XDP action list, if every name in a list of names decodes.
pub open spec fn spec_xdp_entries_from_strs(ss: Seq<Seq<char>>) -> Option<Seq<XdpProceedOnEntry>>
    decreases ss.len(),
{
    if ss.len() == 0 {
        Some(Seq::empty())
    } else {
        match spec_xdp_entries_from_strs(ss.drop_last()) {
            Some(p) => match spec_xdp_action_from_str(ss.last()) {
                Some(e) => Some(p.push(e)),
                None => None,
            },
            None => None,
        }
    }
}

/// The XDP action list, if every integer in a list decodes.
pub open spec fn spec_xdp_entries_from_i32s(vs: Seq<i32>) -> Option<Seq<XdpProceedOnEntry>>
    decreases vs.len(),
{
    if vs.len() == 0 {
        Some(Seq::empty())
    } else {
        match spec_xdp_entries_from_i32s(vs.drop_last()) {
            Some(p) => match spec_xdp_action_from_i32(vs.last()) {
                Some(e) => Some(p.push(e)),
                None => None,
            },
            None => None,
        }
    }
}

/// The TC action list, if every name in a list of names decodes.
pub open spec fn spec_tc_entries_from_strs(ss: Seq<Seq<char>>) -> Option<Seq<TcProceedOnEntry>>
    decreases ss.len(),
{
    if ss.len() == 0 {
        Some(Seq::empty())
    } else {
        match spec_tc_entries_from_strs(ss.drop_last()) {
            Some(p) => match spec_tc_action_from_str(ss.last()) {
                Some(e) => Some(p.push(e)),
                None => None,
            },
            None => None,
        }
    }
}

/// The TC action list, if every integer in a list decodes.
pub open spec fn spec_tc_entries_from_i32s(vs: Seq<i32>) -> Option<Seq<TcProceedOnEntry>>
    decreases vs.len(),
{
    if vs.len() == 0 {
        Some(Seq::empty())
    } else {
        match spec_tc_entries_from_i32s(vs.drop_last()) {
            Some(p) => match spec_tc_action_from_i32(vs.last()) {
                Some(e) => Some(p.push(e)),
                None => None,
            },
            None => None,
        }
    }
}

/// An ordered list of XDP actions on which the dispatcher proceeds.
#[derive(Clone, Debug)]
pub struct XdpProceedOn(Vec<XdpProceedOnEntry>);

impl View for XdpProceedOn {
    type V = Seq<XdpProceedOnEntry>;

    closed spec fn view(&self) -> Seq<XdpProceedOnEntry> {
        self.0@
    }
}

impl Default for XdpProceedOn {
    /// The default action set stands in for an empty one.
    fn default() -> (r: Self)
        ensures
            r@ == spec_xdp_default(),
    {
        let entries = vec![XdpProceedOnEntry::Pass, XdpProceedOnEntry::DispatcherReturn];
        assert(entries@ =~= spec_xdp_default());
        XdpProceedOn(entries)
    }
}

impl XdpProceedOn {
    /// Wraps a list of actions; an empty list is replaced by the
    /// default set.
    pub fn from_entries(entries: Vec<XdpProceedOnEntry>) -> (r: XdpProceedOn)
        ensures
            entries@.len() == 0 ==> r@ == spec_xdp_default(),
            entries@.len() > 0 ==> r@ == entries@,
    {
        if entries.len() == 0 {
            XdpProceedOn::default()
        } else {
            XdpProceedOn(entries)
        }
    }

    /// Decodes an action list from names; the first name that is no
    /// action is reported. An empty list decodes to the default set.
    pub fn from_strings(values: &Vec<String>) -> (r: Result<XdpProceedOn, ParseError>)
        ensures
            values@.len() == 0 ==> (r matches Ok(p) && p@ == spec_xdp_default()),
            values@.len() > 0 ==> (spec_xdp_entries_from_strs(values.deep_view()) matches Some(es)
                ==> (r matches Ok(p) && p@ == es)),
            spec_xdp_entries_from_strs(values.deep_view()) is None ==> (r matches Err(
                ParseError::InvalidProceedOn { proceedon },
            ) && spec_xdp_action_from_str(proceedon@) is None && values.deep_view().contains(
                proceedon@,
            )),
    {
        if values.len() == 0 {
            return Ok(XdpProceedOn::default());
        }
        let ghost ss = values.deep_view();
        let mut res: Vec<XdpProceedOnEntry> = Vec::new();
        let mut i: usize = 0;
        while i < values.len()
            invariant
                0 <= i <= values.len(),
                ss == values.deep_view(),
                ss.len() == values@.len(),
                forall|j: int| 0 <= j < values@.len() ==> ss[j] == values@[j]@,
                spec_xdp_entries_from_strs(ss.take(i as int)) == Some(res@),
            decreases values.len() - i,
        {
            let ghost prefix = ss.take(i as int);
            match XdpProceedOnEntry::from_str(values[i].as_str()) {
                Ok(e) => {
                    res.push(e);
                },
                Err(e) => {
                    proof {
                        assert(spec_xdp_action_from_str(ss[i as int]) is None);
                        lemma_xdp_entries_from_strs_extend_none(ss, i as int);
                    }
                    return Err(e);
                },
            }
            proof {
                assert(ss.take(i + 1).drop_last() =~= prefix);
                assert(ss.take(i + 1).last() == ss[i as int]);
            }
            i = i + 1;
        }
        proof {
            assert(ss.take(values@.len() as int) =~= ss);
        }
        Ok(XdpProceedOn(res))
    }

    /// Decodes an action list from integers; an empty list decodes
    /// to the default set.
    pub fn from_int32s(values: &Vec<i32>) -> (r: Result<XdpProceedOn, ParseError>)
        ensures
            values@.len() == 0 ==> (r matches Ok(p) && p@ == spec_xdp_default()),
            values@.len() > 0 ==> (spec_xdp_entries_from_i32s(values@) matches Some(es) ==> (
            r matches Ok(p) && p@ == es)),
            spec_xdp_entries_from_i32s(values@) is None ==> (r matches Err(
                ParseError::InvalidProceedOn { proceedon },
            ) && (exists|i: int|
                0 <= i < values@.len() && spec_xdp_action_from_i32(values@[i]) is None
                    && proceedon@ == spec_i32_decimal(values@[i]))),
    {
        if values.len() == 0 {
            return Ok(XdpProceedOn::default());
        }
        let mut res: Vec<XdpProceedOnEntry> = Vec::new();
        let mut i: usize = 0;
        while i < values.len()
            invariant
                0 <= i <= values.len(),
                spec_xdp_entries_from_i32s(values@.take(i as int)) == Some(res@),
            decreases values.len() - i,
        {
            let ghost prefix = values@.take(i as int);
            match XdpProceedOnEntry::from_i32(values[i]) {
                Ok(e) => {
                    res.push(e);
                },
                Err(e) => {
                    proof {
                        lemma_xdp_entries_from_i32s_extend_none(values@, i as int);
                    }
                    return Err(e);
                },
            }
            proof {
                assert(values@.take(i + 1).drop_last() =~= prefix);
                assert(values@.take(i + 1).last() == values@[i as int]);
            }
            i = i + 1;
        }
        proof {
            assert(values@.take(values@.len() as int) =~= values@);
        }
        Ok(XdpProceedOn(res))
    }

    /// The bitmask this action set encodes to in the dispatcher's
    /// configuration.
    pub fn mask(&self) -> (r: u32)
        ensures
            r == spec_xdp_mask(self@),
    {
        let mut m: u32 = 0;
        let mut i: usize = 0;
        while i < self.0.len()
            invariant
                0 <= i <= self.0.len(),
                m == spec_xdp_mask(self.0@.take(i as int)),
            decreases self.0.len() - i,
        {
            let ghost prefix = self.0@.take(i as int);
            m = m | self.0[i].mask_bit();
            proof {
                assert(self.0@.take(i + 1).drop_last() =~= prefix);
                assert(self.0@.take(i + 1).last() == self.0@[i as int]);
            }
            i = i + 1;
        }
        proof {
            assert(self.0@.take(self.0@.len() as int) =~= self.0@);
        }
        m
    }

    /// The integer encodings of the actions, in order.
    pub fn as_action_vec(&self) -> (r: Vec<i32>)
        ensures
            r@ == self@.map_values(|e: XdpProceedOnEntry| spec_xdp_action_i32(e)),
    {
        let mut res: Vec<i32> = Vec::new();
        let mut i: usize = 0;
        while i < self.0.len()
            invariant
                0 <= i <= self.0.len(),
                res@ == self.0@.take(i as int).map_values(
                    |e: XdpProceedOnEntry| spec_xdp_action_i32(e),
                ),
            decreases self.0.len() - i,
        {
            res.push(self.0[i].to_i32());
            proof {
                assert(self.0@.take(i + 1).map_values(
                    |e: XdpProceedOnEntry| spec_xdp_action_i32(e),
                ) =~= self.0@.take(i as int).map_values(
                    |e: XdpProceedOnEntry| spec_xdp_action_i32(e),
                ).push(spec_xdp_action_i32(self.0@[i as int])));
            }
            i = i + 1;
        }
        proof {
            assert(self.0@.take(self.0@.len() as int) =~= self.0@);
        }
        res
    }
}

/// Extending a name list with an undecodable name makes the whole
/// list undecodable.
proof fn lemma_xdp_entries_from_strs_extend_none(ss: Seq<Seq<char>>, i: int)
    requires
        0 <= i < ss.len(),
        spec_xdp_action_from_str(ss[i]) is None,
    ensures
        spec_xdp_entries_from_strs(ss) is None,
    decreases ss.len(),
{
    if ss.len() > 0 {
        if i == ss.len() - 1 {
        } else {
            assert(ss.drop_last()[i] == ss[i]);
            lemma_xdp_entries_from_strs_extend_none(ss.drop_last(), i);
        }
    }
}

/// Extending an integer list with an undecodable value makes the
/// whole list undecodable.
proof fn lemma_xdp_entries_from_i32s_extend_none(vs: Seq<i32>, i: int)
    requires
        0 <= i < vs.len(),
        spec_xdp_action_from_i32(vs[i]) is None,
    ensures
        spec_xdp_entries_from_i32s(vs) is None,
    decreases vs.len(),
{
    if vs.len() > 0 {
        if i == vs.len() - 1 {
        } else {
            assert(vs.drop_last()[i] == vs[i]);
            lemma_xdp_entries_from_i32s_extend_none(vs.drop_last(), i);
        }
    }
}

/// An ordered list of TC actions on which the dispatcher proceeds.
#[derive(Clone, Debug)]
pub struct TcProceedOn(Vec<TcProceedOnEntry>);

impl View for TcProceedOn {
    type V = Seq<TcProceedOnEntry>;

    closed spec fn view(&self) -> Seq<TcProceedOnEntry> {
        self.0@
    }
}

impl Default for TcProceedOn {
    /// The default action set stands in for an empty one.
    fn default() -> (r: Self)
        ensures
            r@ == spec_tc_default(),
    {
        let entries = vec![TcProceedOnEntry::Pipe, TcProceedOnEntry::DispatcherReturn];
        assert(entries@ =~= spec_tc_default());
        TcProceedOn(entries)
    }
}

impl TcProceedOn {
    /// Wraps a list of actions; an empty list is replaced by the
    /// default set.
    pub fn from_entries(entries: Vec<TcProceedOnEntry>) -> (r: TcProceedOn)
        ensures
            entries@.len() == 0 ==> r@ == spec_tc_default(),
            entries@.len() > 0 ==> r@ == entries@,
    {
        if entries.len() == 0 {
            TcProceedOn::default()
        } else {
            TcProceedOn(entries)
        }
    }

    /// Decodes an action list from names; the first name that is no
    /// action is reported. An empty list decodes to the default set.
    pub fn from_strings(values: &Vec<String>) -> (r: Result<TcProceedOn, ParseError>)
        ensures
            values@.len() == 0 ==> (r matches Ok(p) && p@ == spec_tc_default()),
            values@.len() > 0 ==> (spec_tc_entries_from_strs(values.deep_view()) matches Some(es)
                ==> (r matches Ok(p) && p@ == es)),
            spec_tc_entries_from_strs(values.deep_view()) is None ==> (r matches Err(
                ParseError::InvalidProceedOn { proceedon },
            ) && spec_tc_action_from_str(proceedon@) is None && values.deep_view().contains(
                proceedon@,
            )),
    {
        if values.len() == 0 {
            return Ok(TcProceedOn::default());
        }
        let ghost ss = values.deep_view();
        let mut res: Vec<TcProceedOnEntry> = Vec::new();
        let mut i: usize = 0;
        while i < values.len()
            invariant
                0 <= i <= values.len(),
                ss == values.deep_view(),
                ss.len() == values@.len(),
                forall|j: int| 0 <= j < values@.len() ==> ss[j] == values@[j]@,
                spec_tc_entries_from_strs(ss.take(i as int)) == Some(res@),
            decreases values.len() - i,
        {
            let ghost prefix = ss.take(i as int);
            match TcProceedOnEntry::from_str(values[i].as_str()) {
                Ok(e) => {
                    res.push(e);
                },
                Err(e) => {
                    proof {
                        assert(spec_tc_action_from_str(ss[i as int]) is None);
                        lemma_tc_entries_from_strs_extend_none(ss, i as int);
                    }
                    return Err(e);
                },
            }
            proof {
                assert(ss.take(i + 1).drop_last() =~= prefix);
                assert(ss.take(i + 1).last() == ss[i as int]);
            }
            i = i + 1;
        }
        proof {
            assert(ss.take(values@.len() as int) =~= ss);
        }
        Ok(TcProceedOn(res))
    }

    /// Decodes an action list from integers; an empty list decodes
    /// to the default set.
    pub fn from_int32s(values: &Vec<i32>) -> (r: Result<TcProceedOn, ParseError>)
        ensures
            values@.len() == 0 ==> (r matches Ok(p) && p@ == spec_tc_default()),
            values@.len() > 0 ==> (spec_tc_entries_from_i32s(values@) matches Some(es) ==> (
            r matches Ok(p) && p@ == es)),
            spec_tc_entries_from_i32s(values@) is None ==> (r matches Err(
                ParseError::InvalidProceedOn { proceedon },
            ) && (exists|i: int|
                0 <= i < values@.len() && spec_tc_action_from_i32(values@[i]) is None && proceedon@
                    == spec_i32_decimal(values@[i]))),
    {
        if values.len() == 0 {
            return Ok(TcProceedOn::default());
        }
        let mut res: Vec<TcProceedOnEntry> = Vec::new();
        let mut i: usize = 0;
        while i < values.len()
            invariant
                0 <= i <= values.len(),
                spec_tc_entries_from_i32s(values@.take(i as int)) == Some(res@),
            decreases values.len() - i,
        {
            let ghost prefix = values@.take(i as int);
            match TcProceedOnEntry::from_i32(values[i]) {
                Ok(e) => {
                    res.push(e);
                },
                Err(e) => {
                    proof {
                        lemma_tc_entries_from_i32s_extend_none(values@, i as int);
                    }
                    return Err(e);
                },
            }
            proof {
                assert(values@.take(i + 1).drop_last() =~= prefix);
                assert(values@.take(i + 1).last() == values@[i as int]);
            }
            i = i + 1;
        }
        proof {
            assert(values@.take(values@.len() as int) =~= values@);
        }
        Ok(TcProceedOn(res))
    }

    /// The bitmask this action set encodes to in the dispatcher's
    /// configuration.
    pub fn mask(&self) -> (r: u32)
        ensures
            r == spec_tc_mask(self@),
    {
        let mut m: u32 = 0;
        let mut i: usize = 0;
        while i < self.0.len()
            invariant
                0 <= i <= self.0.len(),
                m == spec_tc_mask(self.0@.take(i as int)),
            decreases self.0.len() - i,
        {
            let ghost prefix = self.0@.take(i as int);
            m = m | self.0[i].mask_bit();
            proof {
                assert(self.0@.take(i + 1).drop_last() =~= prefix);
                assert(self.0@.take(i + 1).last() == self.0@[i as int]);
            }
            i = i + 1;
        }
        proof {
            assert(self.0@.take(self.0@.len() as int) =~= self.0@);
        }
        m
    }

    /// The integer encodings of the actions, in order.
    pub fn as_action_vec(&self) -> (r: Vec<i32>)
        ensures
            r@ == self@.map_values(|e: TcProceedOnEntry| spec_tc_action_i32(e)),
    {
        let mut res: Vec<i32> = Vec::new();
        let mut i: usize = 0;
        while i < self.0.len()
            invariant
                0 <= i <= self.0.len(),
                res@ == self.0@.take(i as int).map_values(
                    |e: TcProceedOnEntry| spec_tc_action_i32(e),
                ),
            decreases self.0.len() - i,
        {
            res.push(self.0[i].to_i32());
            proof {
                assert(self.0@.take(i + 1).map_values(
                    |e: TcProceedOnEntry| spec_tc_action_i32(e),
                ) =~= self.0@.take(i as int).map_values(
                    |e: TcProceedOnEntry| spec_tc_action_i32(e),
                ).push(spec_tc_action_i32(self.0@[i as int])));
            }
            i = i + 1;
        }
        proof {
            assert(self.0@.take(self.0@.len() as int) =~= self.0@);
        }
        res
    }

    /// Whether the set holds no action.
    pub fn is_empty(&self) -> (r: bool)
        ensures
            r == (self@.len() == 0),
    {
        self.0.len() == 0
    }
}

/// Extending a name list with an undecodable name makes the whole
/// list undecodable.
proof fn lemma_tc_entries_from_strs_extend_none(ss: Seq<Seq<char>>, i: int)
    requires
        0 <= i < ss.len(),
        spec_tc_action_from_str(ss[i]) is None,
    ensures
        spec_tc_entries_from_strs(ss) is None,
    decreases ss.len(),
{
    if ss.len() > 0 {
        if i == ss.len() - 1 {
        } else {
            assert(ss.drop_last()[i] == ss[i]);
            lemma_tc_entries_from_strs_extend_none(ss.drop_last(), i);
        }
    }
}

/// Extending an integer list with an undecodable value makes the
/// whole list undecodable.
proof fn lemma_tc_entries_from_i32s_extend_none(vs: Seq<i32>, i: int)
    requires
        0 <= i < vs.len(),
        spec_tc_action_from_i32(vs[i]) is None,
    ensures
        spec_tc_entries_from_i32s(vs) is None,
    decreases vs.len(),
{
    if vs.len() > 0 {
        if i == vs.len() - 1 {
        } else {
            assert(vs.drop_last()[i] == vs[i]);
            lemma_tc_entries_from_i32s_extend_none(vs.drop_last(), i);
        }
    }
}

/// The mask of the default XDP action set has exactly the bits of
/// the pass action and of the dispatcher sentinel.
pub proof fn lemma_xdp_default_mask()
    ensures
        spec_xdp_mask(spec_xdp_default()) == (1u32 << 2) | (1u32 << 31),
{
    let d = spec_xdp_default();
    assert(d.drop_last() =~= seq![XdpProceedOnEntry::Pass]);
    assert(seq![XdpProceedOnEntry::Pass].drop_last() =~= Seq::<XdpProceedOnEntry>::empty());
    assert(0u32 | 0x4u32 == 0x4u32) by (bit_vector);
    assert(spec_xdp_mask(Seq::<XdpProceedOnEntry>::empty()) == 0u32);
    assert(spec_xdp_mask(seq![XdpProceedOnEntry::Pass]) == 0x4u32);
    assert(spec_xdp_mask(d) == 0x4u32 | 0x80000000u32);
    assert(0x4u32 | 0x80000000u32 == (1u32 << 2) | (1u32 << 31)) by (bit_vector);
}

/// The mask of the default TC action set has exactly the bits of
/// the pipe action and of the dispatcher sentinel, each shifted up
/// by the offset that moves the TC value range into legal shifts.
pub proof fn lemma_tc_default_mask()
    ensures
        spec_tc_mask(spec_tc_default()) == (1u32 << (3 + 1)) | (1u32 << (30 + 1)),
{
    let d = spec_tc_default();
    assert(d.drop_last() =~= seq![TcProceedOnEntry::Pipe]);
    assert(seq![TcProceedOnEntry::Pipe].drop_last() =~= Seq::<TcProceedOnEntry>::empty());
    assert(0u32 | 0x10u32 == 0x10u32) by (bit_vector);
    assert(spec_tc_mask(Seq::<TcProceedOnEntry>::empty()) == 0u32);
    assert(spec_tc_mask(seq![TcProceedOnEntry::Pipe]) == 0x10u32);
    assert(spec_tc_mask(d) == 0x10u32 | 0x80000000u32);
    assert(0x10u32 | 0x80000000u32 == (1u32 << (3 + 1)) | (1u32 << (30 + 1))) by (bit_vector);
}

} // verus!
