//! OSC 22 mouse pointer shape sequences.
//!
//! The sequence is `ESC ] 22 ; <W3C cursor name> ESC \`; an empty payload
//! resets the pointer to the terminal's default.
use vstd::prelude::*;

use crate::terminal_notify::{lemma_tmux_wrapped_injective, tmux_wrapped, wrap_tmux_passthrough, ESC};

verus! {

/// Mouse pointer shapes that can be requested from the terminal.
#[derive(Debug, Clone, Copy, PartialEq, Eq, Structural)]
pub enum MousePointerShape {
    /// Reset to the terminal default (empty OSC 22 payload).
    Default,
    /// `pointer`: a clickable button.
    Pointer,
    /// `grab`: a draggable element at rest.
    Grab,
    /// `grabbing`: a draggable element being dragged.
    Grabbing,
    /// `col-resize`: a vertical splitter dragged horizontally.
    ColResize,
    /// `row-resize`: a horizontal splitter dragged vertically.
    RowResize,
}

impl Default for MousePointerShape {
    /// The default shape is `Default`, the terminal's own pointer.
    fn default() -> (shape: MousePointerShape)
        ensures
            shape == MousePointerShape::Default,
    {
        MousePointerShape::Default
    }
}

/// The W3C / CSS cursor name of a shape; empty for `Default`.
pub open spec fn w3c_name(shape: MousePointerShape) -> Seq<char> {
    match shape {
        MousePointerShape::Default => seq![],
        MousePointerShape::Pointer => seq!['p', 'o', 'i', 'n', 't', 'e', 'r'],
        MousePointerShape::Grab => seq!['g', 'r', 'a', 'b'],
        MousePointerShape::Grabbing => seq!['g', 'r', 'a', 'b', 'b', 'i', 'n', 'g'],
        MousePointerShape::ColResize => seq!['c', 'o', 'l', '-', 'r', 'e', 's', 'i', 'z', 'e'],
        MousePointerShape::RowResize => seq!['r', 'o', 'w', '-', 'r', 'e', 's', 'i', 'z', 'e'],
    }
}

impl MousePointerShape {
    /// W3C / CSS cursor name placed in the OSC 22 payload, or `None` for
    /// `Default`, which resets with an empty payload.
    pub fn osc22_name(self) -> (r: Option<&'static str>)
        ensures
            r is None <==> self == MousePointerShape::Default,
            r matches Some(s) ==> s@ == w3c_name(self) && s.is_ascii(),
    {
        match self {
            MousePointerShape::Default => None,
            MousePointerShape::Pointer => {
                proof { reveal_strlit("pointer"); }
                Some("pointer")
            },
            MousePointerShape::Grab => {
                proof { reveal_strlit("grab"); }
                Some("grab")
            },
            MousePointerShape::Grabbing => {
                proof { reveal_strlit("grabbing"); }
                Some("grabbing")
            },
            MousePointerShape::ColResize => {
                proof { reveal_strlit("col-resize"); }
                Some("col-resize")
            },
            MousePointerShape::RowResize => {
                proof { reveal_strlit("row-resize"); }
                Some("row-resize")
            },
        }
    }
}

/// The bytes of an ASCII text, one per character.
pub open spec fn ascii_bytes(s: Seq<char>) -> Seq<u8> {
    s.map_values(|c: char| c as u8)
}

/// `ESC ] 2 2 ;`: the start of an OSC 22 sequence.
pub open spec fn osc22_prefix() -> Seq<u8> {
    seq![0x1bu8, 0x5du8, 0x32u8, 0x32u8, 0x3bu8]
}

/// The OSC 22 sequence for a shape: `ESC ] 22 ; <name> ESC \`.
pub open spec fn osc22_sequence(shape: MousePointerShape) -> Seq<u8> {
    osc22_prefix() + ascii_bytes(w3c_name(shape)) + seq![0x1bu8, 0x5cu8]
}

/// The bytes written for a shape, wrapped for tmux when `in_tmux`.
pub open spec fn osc22_output(shape: MousePointerShape, in_tmux: bool) -> Seq<u8> {
    if in_tmux {
        tmux_wrapped(osc22_sequence(shape))
    } else {
        osc22_sequence(shape)
    }
}

/// Each shape has its own sequence, so the terminal can tell every requested
/// shape apart, with or without the tmux wrapping.
pub proof fn lemma_osc22_output_injective(a: MousePointerShape, b: MousePointerShape, in_tmux: bool)
    ensures
        a != b ==> osc22_output(a, in_tmux) != osc22_output(b, in_tmux),
{
    if a != b {
        let sa = osc22_sequence(a);
        let sb = osc22_sequence(b);
        assert(sa.len() == w3c_name(a).len() + 7);
        assert(sb.len() == w3c_name(b).len() + 7);
        if sa.len() == sb.len() && w3c_name(a).len() > 0 {
            assert(sa[5] == w3c_name(a)[0] as u8);
            assert(sb[5] == w3c_name(b)[0] as u8);
        }
        assert(sa != sb);
        lemma_tmux_wrapped_injective(sa, sb);
    }
}

/// The plain sequence of each shape, byte by byte: `ESC ] 2 2 ;`, the W3C
/// cursor name in ASCII (nothing for `Default`), `ESC \`.
pub proof fn lemma_osc22_plain_bytes()
    ensures
        osc22_output(MousePointerShape::Default, false) == seq![0x1bu8, 0x5du8, 0x32u8, 0x32u8, 0x3bu8, 0x1bu8, 0x5cu8],
        osc22_output(MousePointerShape::Pointer, false) == seq![0x1bu8, 0x5du8, 0x32u8, 0x32u8, 0x3bu8,
            0x70u8, 0x6fu8, 0x69u8, 0x6eu8, 0x74u8, 0x65u8, 0x72u8, 0x1bu8, 0x5cu8],
        osc22_output(MousePointerShape::Grab, false) == seq![0x1bu8, 0x5du8, 0x32u8, 0x32u8, 0x3bu8,
            0x67u8, 0x72u8, 0x61u8, 0x62u8, 0x1bu8, 0x5cu8],
        osc22_output(MousePointerShape::Grabbing, false) == seq![0x1bu8, 0x5du8, 0x32u8, 0x32u8, 0x3bu8,
            0x67u8, 0x72u8, 0x61u8, 0x62u8, 0x62u8, 0x69u8, 0x6eu8, 0x67u8, 0x1bu8, 0x5cu8],
        osc22_output(MousePointerShape::ColResize, false) == seq![0x1bu8, 0x5du8, 0x32u8, 0x32u8, 0x3bu8,
            0x63u8, 0x6fu8, 0x6cu8, 0x2du8, 0x72u8, 0x65u8, 0x73u8, 0x69u8, 0x7au8, 0x65u8, 0x1bu8, 0x5cu8],
        osc22_output(MousePointerShape::RowResize, false) == seq![0x1bu8, 0x5du8, 0x32u8, 0x32u8, 0x3bu8,
            0x72u8, 0x6fu8, 0x77u8, 0x2du8, 0x72u8, 0x65u8, 0x73u8, 0x69u8, 0x7au8, 0x65u8, 0x1bu8, 0x5cu8],
{
    assert(osc22_output(MousePointerShape::Default, false) =~= seq![0x1bu8, 0x5du8, 0x32u8, 0x32u8, 0x3bu8, 0x1bu8, 0x5cu8]);
    assert(osc22_output(MousePointerShape::Pointer, false) =~= seq![0x1bu8, 0x5du8, 0x32u8, 0x32u8, 0x3bu8,
        0x70u8, 0x6fu8, 0x69u8, 0x6eu8, 0x74u8, 0x65u8, 0x72u8, 0x1bu8, 0x5cu8]);
    assert(osc22_output(MousePointerShape::Grab, false) =~= seq![0x1bu8, 0x5du8, 0x32u8, 0x32u8, 0x3bu8,
        0x67u8, 0x72u8, 0x61u8, 0x62u8, 0x1bu8, 0x5cu8]);
    assert(osc22_output(MousePointerShape::Grabbing, false) =~= seq![0x1bu8, 0x5du8, 0x32u8, 0x32u8, 0x3bu8,
        0x67u8, 0x72u8, 0x61u8, 0x62u8, 0x62u8, 0x69u8, 0x6eu8, 0x67u8, 0x1bu8, 0x5cu8]);
    assert(osc22_output(MousePointerShape::ColResize, false) =~= seq![0x1bu8, 0x5du8, 0x32u8, 0x32u8, 0x3bu8,
        0x63u8, 0x6fu8, 0x6cu8, 0x2du8, 0x72u8, 0x65u8, 0x73u8, 0x69u8, 0x7au8, 0x65u8, 0x1bu8, 0x5cu8]);
    assert(osc22_output(MousePointerShape::RowResize, false) =~= seq![0x1bu8, 0x5du8, 0x32u8, 0x32u8, 0x3bu8,
        0x72u8, 0x6fu8, 0x77u8, 0x2du8, 0x72u8, 0x65u8, 0x73u8, 0x69u8, 0x7au8, 0x65u8, 0x1bu8, 0x5cu8]);
}

/// Inside tmux, a shape's sequence is the tmux wrapping of its plain
/// sequence: the same shape is requested either way.
pub proof fn lemma_osc22_tmux_wraps_plain(shape: MousePointerShape)
    ensures
        osc22_output(shape, true) == tmux_wrapped(osc22_output(shape, false)),
{
}

/// Build the raw bytes for an OSC 22 sequence. When `in_tmux`, wraps the
/// sequence in tmux DCS passthrough so it reaches the outer terminal.
pub fn osc22_bytes_for(shape: MousePointerShape, in_tmux: bool) -> (bytes: Vec<u8>)
    ensures
        bytes@ == osc22_output(shape, in_tmux),
{
    proof { reveal_strlit(""); }
    let name = shape.osc22_name().unwrap_or("");
    let name_bytes = name.as_bytes();
    proof {
        broadcast use vstd::string::is_ascii_spec_bytes;
        assert(name_bytes@ == ascii_bytes(w3c_name(shape)));
    }
    let mut raw: Vec<u8> = Vec::new();
    raw.push(ESC);
    raw.push(0x5d);
    raw.push(0x32);
    raw.push(0x32);
    raw.push(0x3b);
    let mut i: usize = 0;
    while i < name_bytes.len()
        invariant
            i <= name_bytes@.len(),
            raw@ == osc22_prefix() + name_bytes@.take(i as int),
        decreases name_bytes@.len() - i,
    {
        raw.push(name_bytes[i]);
        i = i + 1;
    }
    assert(name_bytes@.take(name_bytes@.len() as int) == name_bytes@);
    raw.push(ESC);
    raw.push(0x5c);
    assert(raw@ == osc22_sequence(shape));
    if in_tmux {
        wrap_tmux_passthrough(raw.as_slice())
    } else {
        raw
    }
}

} // verus!
