//! Foreign-toplevel bookkeeping: the state flags of another application's
//! window as the compositor reports them, the decoded info record, and the
//! parsing of the wire-format state array. The protocol proxy that sends
//! requests back to the compositor lives in the embedding layer.

use vstd::prelude::*;

verus! {

/// The window is maximized.
pub const TOPLEVEL_MAXIMIZED: u32 = 1;

/// The window is minimized.
pub const TOPLEVEL_MINIMIZED: u32 = 2;

/// The window is activated (has focus).
pub const TOPLEVEL_ACTIVATED: u32 = 4;

/// The window is fullscreen.
pub const TOPLEVEL_FULLSCREEN: u32 = 8;

/// The state of a toplevel window, as a set of flags.
#[derive(Clone, Copy, Debug, PartialEq, Eq, Structural)]
pub struct ToplevelState {
    pub bits: u32,
}

/// The wire protocol numbers its states 0 to 3 (maximized, minimized,
/// activated, fullscreen); each becomes one flag and anything else
/// contributes nothing.
pub open spec fn spec_state_flag(value: u32) -> u32 {
    if value == 0 {
        TOPLEVEL_MAXIMIZED
    } else if value == 1 {
        TOPLEVEL_MINIMIZED
    } else if value == 2 {
        TOPLEVEL_ACTIVATED
    } else if value == 3 {
        TOPLEVEL_FULLSCREEN
    } else {
        0
    }
}

/// The little-endian 32-bit word starting at byte `4 * k`.
pub open spec fn spec_state_word(bytes: Seq<u8>, k: int) -> u32 {
    (bytes[4 * k] + 256 * bytes[4 * k + 1] + 65536 * bytes[4 * k + 2] + 16777216 * bytes[4 * k
        + 3]) as u32
}

/// The flags of the first `n` complete words of a state array, combined.
pub open spec fn spec_parse_states(bytes: Seq<u8>, n: int) -> u32
    decreases n,
{
    if n <= 0 {
        0
    } else {
        spec_parse_states(bytes, n - 1) | spec_state_flag(spec_state_word(bytes, n - 1))
    }
}

impl ToplevelState {
    /// No flags set.
    pub fn empty() -> (r: ToplevelState)
        ensures
            r.bits == 0,
    {
        ToplevelState { bits: 0 }
    }

    /// Whether every bit of `flag` is set.
    pub fn contains(&self, flag: u32) -> (r: bool)
        ensures
            r == ((self.bits & flag) == flag),
    {
        (self.bits & flag) == flag
    }

}

/// One wire state value mapped to its flag.
pub fn state_from_raw(value: u32) -> (r: ToplevelState)
    ensures
        r.bits == spec_state_flag(value),
{
    if value == 0 {
        ToplevelState { bits: TOPLEVEL_MAXIMIZED }
    } else if value == 1 {
        ToplevelState { bits: TOPLEVEL_MINIMIZED }
    } else if value == 2 {
        ToplevelState { bits: TOPLEVEL_ACTIVATED }
    } else if value == 3 {
        ToplevelState { bits: TOPLEVEL_FULLSCREEN }
    } else {
        ToplevelState { bits: 0 }
    }
}

/// Decode a compositor state array: every complete four-byte word is read
/// as a little-endian value, mapped to its flag, and the flags combined; a
/// trailing incomplete chunk is ignored. The protocol sends words in host
/// byte order, which is little-endian on every target this runs on.
pub fn parse_state_array(bytes: &Vec<u8>) -> (r: ToplevelState)
    ensures
        r.bits == spec_parse_states(bytes@, bytes@.len() as int / 4),
{
    let mut state = ToplevelState { bits: 0 };
    let mut i: usize = 0;
    while bytes.len() - i >= 4
        invariant
            i <= bytes@.len(),
            i % 4 == 0,
            state.bits == spec_parse_states(bytes@, i as int / 4),
        decreases bytes@.len() - i,
    {
        let b0 = bytes[i] as u32;
        let b1 = bytes[i + 1] as u32;
        let b2 = bytes[i + 2] as u32;
        let b3 = bytes[i + 3] as u32;
        let word: u32 = b0 + 256 * b1 + 65536 * b2 + 16777216 * b3;
        let flag = state_from_raw(word);
        state = ToplevelState { bits: state.bits | flag.bits };
        proof {
            assert((i + 4) as int / 4 == i as int / 4 + 1);
            assert(4 * (i as int / 4) == i as int);
        }
        i += 4;
    }
    proof {
        assert(i as int / 4 == bytes@.len() as int / 4) by {
            assert(i <= bytes@.len() < i + 4);
            assert(i % 4 == 0);
        }
    }
    state
}

/// Everything known about one foreign toplevel window.
#[derive(Clone, Debug, PartialEq, Eq)]
pub struct ToplevelInfo {
    /// The window title, once announced.
    pub title: Option<String>,
    /// The application id, once announced.
    pub app_id: Option<String>,
    /// The current state flags.
    pub state: ToplevelState,
    /// The outputs the window is visible on, by protocol object id.
    pub outputs: Vec<u64>,
    /// The parent window's protocol object id, if any.
    pub parent: Option<u64>,
}

/// A sequence with every occurrence of one value removed, in order.
pub open spec fn spec_without(s: Seq<u64>, id: u64) -> Seq<u64>
    decreases s.len(),
{
    if s.len() == 0 {
        Seq::empty()
    } else {
        spec_without(s.drop_last(), id) + (if s.last() == id {
            Seq::empty()
        } else {
            seq![s.last()]
        })
    }
}

impl ToplevelInfo {
    /// A record for a window nothing is known about yet.
    pub fn new() -> (r: ToplevelInfo)
        ensures
            r.title is None,
            r.app_id is None,
            r.state.bits == 0,
            r.outputs@ == Seq::<u64>::empty(),
            r.parent is None,
    {
        let r = ToplevelInfo {
            title: None,
            app_id: None,
            state: ToplevelState { bits: 0 },
            outputs: Vec::new(),
            parent: None,
        };
        proof {
            assert(r.outputs@ =~= Seq::<u64>::empty());
        }
        r
    }

    /// The window title, if available.
    pub fn title(&self) -> (r: Option<&String>)
        ensures
            match r {
                Some(t) => self.title == Some(*t),
                None => self.title is None,
            },
    {
        match &self.title {
            Some(t) => Some(t),
            None => None,
        }
    }

    /// The application id, if available.
    pub fn app_id(&self) -> (r: Option<&String>)
        ensures
            match r {
                Some(t) => self.app_id == Some(*t),
                None => self.app_id is None,
            },
    {
        match &self.app_id {
            Some(t) => Some(t),
            None => None,
        }
    }

    /// The current state flags.
    pub fn state(&self) -> (r: ToplevelState)
        ensures
            r == self.state,
    {
        self.state
    }

    /// Whether the window is maximized.
    pub fn is_maximized(&self) -> (r: bool)
        ensures
            r == ((self.state.bits & TOPLEVEL_MAXIMIZED) == TOPLEVEL_MAXIMIZED),
    {
        self.state.contains(TOPLEVEL_MAXIMIZED)
    }

    /// Whether the window is minimized.
    pub fn is_minimized(&self) -> (r: bool)
        ensures
            r == ((self.state.bits & TOPLEVEL_MINIMIZED) == TOPLEVEL_MINIMIZED),
    {
        self.state.contains(TOPLEVEL_MINIMIZED)
    }

    /// Whether the window is activated.
    pub fn is_activated(&self) -> (r: bool)
        ensures
            r == ((self.state.bits & TOPLEVEL_ACTIVATED) == TOPLEVEL_ACTIVATED),
    {
        self.state.contains(TOPLEVEL_ACTIVATED)
    }

    /// Whether the window is fullscreen.
    pub fn is_fullscreen(&self) -> (r: bool)
        ensures
            r == ((self.state.bits & TOPLEVEL_FULLSCREEN) == TOPLEVEL_FULLSCREEN),
    {
        self.state.contains(TOPLEVEL_FULLSCREEN)
    }

    /// Record an announced title.
    pub fn update_title(&mut self, title: String)
        ensures
            final(self).title == Some(title),
            final(self).app_id == old(self).app_id,
            final(self).state == old(self).state,
            final(self).outputs@ == old(self).outputs@,
            final(self).parent == old(self).parent,
    {
        self.title = Some(title);
    }

    /// Record an announced application id.
    pub fn update_app_id(&mut self, app_id: String)
        ensures
            final(self).app_id == Some(app_id),
            final(self).title == old(self).title,
            final(self).state == old(self).state,
            final(self).outputs@ == old(self).outputs@,
            final(self).parent == old(self).parent,
    {
        self.app_id = Some(app_id);
    }

    /// Decode and record a compositor state array.
    pub fn update_state(&mut self, bytes: &Vec<u8>)
        ensures
            final(self).state.bits == spec_parse_states(bytes@, bytes@.len() as int / 4),
            final(self).title == old(self).title,
            final(self).app_id == old(self).app_id,
            final(self).outputs@ == old(self).outputs@,
            final(self).parent == old(self).parent,
    {
        self.state = parse_state_array(bytes);
    }

    /// Record that the window appeared on an output.
    pub fn add_output(&mut self, output: u64)
        ensures
            final(self).outputs@ == old(self).outputs@ + seq![output],
            final(self).title == old(self).title,
            final(self).app_id == old(self).app_id,
            final(self).state == old(self).state,
            final(self).parent == old(self).parent,
    {
        self.outputs.push(output);
    }

    /// Record that the window left an output: every occurrence of its id is
    /// dropped and the order of the rest is kept.
    pub fn remove_output(&mut self, output: u64)
        ensures
            final(self).outputs@ == spec_without(old(self).outputs@, output),
            final(self).title == old(self).title,
            final(self).app_id == old(self).app_id,
            final(self).state == old(self).state,
            final(self).parent == old(self).parent,
    {
        let mut kept: Vec<u64> = Vec::new();
        let mut i: usize = 0;
        proof {
            assert(self.outputs@.take(0int) =~= Seq::<u64>::empty());
            assert(kept@ =~= spec_without(self.outputs@.take(0int), output));
        }
        while i < self.outputs.len()
            invariant
                i <= self.outputs@.len(),
                kept@ == spec_without(self.outputs@.take(i as int), output),
            decreases self.outputs@.len() - i,
        {
            let v = self.outputs[i];
            if v != output {
                kept.push(v);
            }
            proof {
                assert(self.outputs@.take(i + 1).drop_last() =~= self.outputs@.take(i as int));
                assert(self.outputs@.take(i + 1).last() == self.outputs@[i as int]);
                assert(kept@ =~= spec_without(self.outputs@.take(i + 1), output));
            }
            i += 1;
        }
        proof {
            assert(self.outputs@.take(self.outputs@.len() as int) =~= self.outputs@);
        }
        self.outputs = kept;
    }

    /// Record the window's parent, or that it has none.
    pub fn update_parent(&mut self, parent: Option<u64>)
        ensures
            final(self).parent == parent,
            final(self).title == old(self).title,
            final(self).app_id == old(self).app_id,
            final(self).state == old(self).state,
            final(self).outputs@ == old(self).outputs@,
    {
        self.parent = parent;
    }
}

/// An action failed because the compositor does not support the foreign
/// toplevel management protocol.
#[derive(Clone, Copy, Debug, PartialEq, Eq, Structural)]
pub struct ForeignToplevelNotSupportedError;

} // verus!
