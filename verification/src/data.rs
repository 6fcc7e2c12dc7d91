//! The data workers report: keys and scored keyboard layouts.

use vstd::prelude::*;

verus! {

/// Number of keys in a complete layout.
pub const KEY_COUNT: usize = 47;

/// One key of a layout: the characters typed without and with shift.
#[derive(Clone, Copy, PartialEq, Eq, Structural, Debug)]
pub struct Key {
    pub lower: char,
    pub upper: char,
}

/// A scored keyboard layout reported by a worker. Immutable once received.
///
/// `score` is an order key: lower means better. The transport layer maps
/// whatever score scale workers report onto this key, preserving order.
#[derive(Debug)]
pub struct Keyboard {
    pub score: u64,
    pub keys: Vec<Key>,
}

/// Mathematical model of a [`Keyboard`].
#[verifier::ext_equal]
pub ghost struct KeyboardModel {
    pub score: u64,
    pub keys: Seq<Key>,
}

impl View for Keyboard {
    type V = KeyboardModel;

    open spec fn view(&self) -> KeyboardModel {
        KeyboardModel { score: self.score, keys: self.keys@ }
    }
}

impl Keyboard {
    /// A layout is well formed when it has the full set of keys.
    pub open spec fn wf(self) -> bool {
        self.keys@.len() == KEY_COUNT
    }
}

/// The models of a sequence of layouts, in order.
pub open spec fn views_of(ks: Seq<Keyboard>) -> Seq<KeyboardModel> {
    ks.map_values(|k: Keyboard| k@)
}

} // verus!
