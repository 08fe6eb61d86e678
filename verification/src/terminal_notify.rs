//! tmux DCS passthrough: wraps an escape sequence so that tmux forwards it to
//! the outer terminal. The wrapped form is `ESC P tmux; <body> ESC \`, where
//! every ESC byte of the body is doubled.
use vstd::prelude::*;

verus! {

/// The escape byte (0x1b).
pub const ESC: u8 = 0x1b;

/// `ESC P t m u x ;`: the start of a tmux passthrough.
pub open spec fn tmux_prefix() -> Seq<u8> {
    seq![0x1bu8, 0x50u8, 0x74u8, 0x6du8, 0x75u8, 0x78u8, 0x3bu8]
}

/// `ESC \`: the string terminator.
pub open spec fn string_terminator() -> Seq<u8> {
    seq![0x1bu8, 0x5cu8]
}

/// `s` with every ESC byte doubled and every other byte kept.
pub open spec fn double_escapes(s: Seq<u8>) -> Seq<u8>
    decreases s.len(),
{
    if s.len() == 0 {
        seq![]
    } else if s.last() == 0x1b {
        double_escapes(s.drop_last()) + seq![0x1bu8, 0x1bu8]
    } else {
        double_escapes(s.drop_last()).push(s.last())
    }
}

/// The tmux passthrough form of `raw`.
pub open spec fn tmux_wrapped(raw: Seq<u8>) -> Seq<u8> {
    tmux_prefix() + double_escapes(raw) + string_terminator()
}

/// The number of ESC bytes in `s`.
pub open spec fn count_escapes(s: Seq<u8>) -> nat
    decreases s.len(),
{
    if s.len() == 0 {
        0
    } else if s.last() == 0x1b {
        count_escapes(s.drop_last()) + 1
    } else {
        count_escapes(s.drop_last())
    }
}

/// Doubling escapes adds one byte per ESC byte.
pub proof fn lemma_double_escapes_len(s: Seq<u8>)
    ensures
        double_escapes(s).len() == s.len() + count_escapes(s),
    decreases s.len(),
{
    if s.len() > 0 {
        lemma_double_escapes_len(s.drop_last());
    }
}

/// Every ESC byte of the input appears twice in the output, and no other
/// ESC byte is added.
pub proof fn lemma_double_escapes_count(s: Seq<u8>)
    ensures
        count_escapes(double_escapes(s)) == 2 * count_escapes(s),
    decreases s.len(),
{
    if s.len() > 0 {
        let s0 = s.drop_last();
        let d0 = double_escapes(s0);
        lemma_double_escapes_count(s0);
        if s.last() == 0x1b {
            let d1 = d0.push(0x1bu8);
            assert(d1.drop_last() =~= d0);
            assert(double_escapes(s) =~= d1.push(0x1bu8));
            assert(double_escapes(s).drop_last() =~= d1);
            assert(count_escapes(d1) == count_escapes(d0) + 1);
            assert(count_escapes(double_escapes(s)) == count_escapes(d1) + 1);
        } else {
            assert(double_escapes(s).drop_last() =~= d0);
            assert(count_escapes(double_escapes(s)) == count_escapes(d0));
        }
    }
}

/// Doubling escapes works byte by byte: doubling a concatenation doubles
/// each part.
pub proof fn lemma_double_escapes_concat(a: Seq<u8>, b: Seq<u8>)
    ensures
        double_escapes(a + b) == double_escapes(a) + double_escapes(b),
    decreases b.len(),
{
    if b.len() == 0 {
        assert(a + b =~= a);
        assert(double_escapes(a) + double_escapes(b) =~= double_escapes(a));
    } else {
        let b0 = b.drop_last();
        lemma_double_escapes_concat(a, b0);
        assert((a + b).drop_last() =~= a + b0);
        assert((a + b).last() == b.last());
        if b.last() == 0x1b {
            assert(double_escapes(a + b) =~= double_escapes(a) + double_escapes(b0) + seq![0x1bu8, 0x1bu8]);
            assert(double_escapes(a) + double_escapes(b) =~= double_escapes(a) + double_escapes(b0) + seq![0x1bu8, 0x1bu8]);
        } else {
            assert(double_escapes(a + b) =~= (double_escapes(a) + double_escapes(b0)).push(b.last()));
            assert(double_escapes(a) + double_escapes(b) =~= (double_escapes(a) + double_escapes(b0)).push(b.last()));
        }
    }
}

/// Appending a byte other than ESC appends that byte; appending ESC appends
/// two ESC bytes.
pub proof fn lemma_double_escapes_push(s: Seq<u8>, b: u8)
    ensures
        b != 0x1b ==> double_escapes(s.push(b)) == double_escapes(s).push(b),
        b == 0x1b ==> double_escapes(s.push(b)) == double_escapes(s).push(0x1bu8).push(0x1bu8),
{
    assert(s.push(b).drop_last() =~= s);
    if b == 0x1b {
        assert(double_escapes(s) + seq![0x1bu8, 0x1bu8] =~= double_escapes(s).push(0x1bu8).push(0x1bu8));
    }
}

/// Where each input byte lands: byte `i` of the input, preceded by `i` bytes
/// of which `count_escapes(s.take(i))` are ESC, appears unchanged at position
/// `i + count_escapes(s.take(i))` of the output; an ESC appears once more
/// right after it. Doubling thus changes no byte and only repeats ESC.
pub proof fn lemma_double_escapes_bytes(s: Seq<u8>, i: int)
    requires
        0 <= i < s.len(),
    ensures
        double_escapes(s)[i + count_escapes(s.take(i))] == s[i],
        s[i] == 0x1b ==> double_escapes(s)[i + count_escapes(s.take(i)) + 1] == 0x1b,
        i + count_escapes(s.take(i)) + (if s[i] == 0x1b { 1int } else { 0int }) < double_escapes(s).len(),
{
    let pre = s.take(i);
    let one = seq![s[i]];
    let post = s.skip(i + 1);
    assert(s =~= pre + one + post);
    lemma_double_escapes_concat(pre + one, post);
    lemma_double_escapes_concat(pre, one);
    lemma_double_escapes_len(pre);
    assert(one.drop_last() =~= Seq::<u8>::empty());
    assert(double_escapes(Seq::<u8>::empty()) =~= Seq::<u8>::empty());
    if s[i] == 0x1b {
        assert(double_escapes(one) =~= seq![0x1bu8, 0x1bu8]);
    } else {
        assert(double_escapes(one) =~= seq![s[i]]);
    }
}

/// The wrapped form places each input byte unchanged after the seven-byte
/// `ESC P tmux;` prefix, shifted by the number of ESC bytes before it, with
/// each ESC repeated once.
pub proof fn lemma_tmux_wrapped_bytes(raw: Seq<u8>, i: int)
    requires
        0 <= i < raw.len(),
    ensures
        tmux_wrapped(raw)[7 + i + count_escapes(raw.take(i))] == raw[i],
        raw[i] == 0x1b ==> tmux_wrapped(raw)[7 + i + count_escapes(raw.take(i)) + 1] == 0x1b,
{
    lemma_double_escapes_bytes(raw, i);
}

/// Doubling escapes loses nothing: different inputs give different outputs.
pub proof fn lemma_double_escapes_injective(s: Seq<u8>, t: Seq<u8>)
    requires
        double_escapes(s) == double_escapes(t),
    ensures
        s == t,
    decreases s.len() + t.len(),
{
    lemma_double_escapes_len(s);
    lemma_double_escapes_len(t);
    if s.len() == 0 || t.len() == 0 {
        if s.len() != 0 {
            assert(double_escapes(s).len() > 0);
        }
        if t.len() != 0 {
            assert(double_escapes(t).len() > 0);
        }
        assert(s =~= t);
    } else {
        let ds = double_escapes(s);
        let s0 = s.drop_last();
        let t0 = t.drop_last();
        let n = ds.len();
        if s.last() == 0x1b {
            assert(ds.last() == 0x1b);
            if t.last() == 0x1b {
                assert(ds.subrange(0, n - 2) =~= double_escapes(s0));
                assert(ds.subrange(0, n - 2) =~= double_escapes(t0));
                lemma_double_escapes_injective(s0, t0);
            } else {
                assert(ds.last() == t.last());
            }
        } else {
            assert(ds.last() == s.last());
            if t.last() == 0x1b {
                assert(ds.last() == 0x1b);
            } else {
                assert(ds.last() == t.last());
                assert(ds.drop_last() =~= double_escapes(s0));
                assert(ds.drop_last() =~= double_escapes(t0));
                lemma_double_escapes_injective(s0, t0);
            }
        }
        assert(s =~= s0.push(s.last()));
        assert(t =~= t0.push(t.last()));
    }
}

/// The wrapped form determines what was wrapped: wrapping two different
/// sequences gives two different sequences.
pub proof fn lemma_tmux_wrapped_injective(s: Seq<u8>, t: Seq<u8>)
    ensures
        s != t ==> tmux_wrapped(s) != tmux_wrapped(t),
{
    if tmux_wrapped(s) == tmux_wrapped(t) {
        let w = tmux_wrapped(s);
        lemma_double_escapes_len(s);
        lemma_double_escapes_len(t);
        assert(w.subrange(7, w.len() - 2) =~= double_escapes(s));
        assert(tmux_wrapped(t).subrange(7, w.len() - 2) =~= double_escapes(t));
        lemma_double_escapes_injective(s, t);
    }
}

/// Wrapping always changes the sequence: the wrapped form is longer than
/// what it wraps, by the framing and one byte per ESC.
pub proof fn lemma_tmux_wrapped_len(raw: Seq<u8>)
    ensures
        tmux_wrapped(raw).len() == raw.len() + count_escapes(raw) + 9,
        tmux_wrapped(raw) != raw,
{
    lemma_double_escapes_len(raw);
}

/// Wraps `raw` in a tmux DCS passthrough so that it reaches the outer
/// terminal: `ESC P tmux;`, then `raw` with each ESC doubled, then `ESC \`.
pub fn wrap_tmux_passthrough(raw: &[u8]) -> (wrapped: Vec<u8>)
    ensures
        wrapped@ == tmux_wrapped(raw@),
        wrapped@.len() == raw@.len() + count_escapes(raw@) + 9,
        wrapped@.take(7) == seq![0x1bu8, 0x50u8, 0x74u8, 0x6du8, 0x75u8, 0x78u8, 0x3bu8],
        wrapped@.skip(wrapped@.len() - 2) == seq![0x1bu8, 0x5cu8],
        forall|i: int|
            0 <= i < raw@.len() ==> wrapped@[7 + i + count_escapes(#[trigger] raw@.take(i))] == raw@[i],
        forall|i: int|
            0 <= i < raw@.len() && raw@[i] == 0x1b ==> wrapped@[7 + i + count_escapes(#[trigger] raw@.take(i)) + 1]
                == 0x1b,
{
    let mut out: Vec<u8> = Vec::new();
    out.push(ESC);
    out.push(0x50);
    out.push(0x74);
    out.push(0x6d);
    out.push(0x75);
    out.push(0x78);
    out.push(0x3b);
    assert(out@ == tmux_prefix());
    let mut i: usize = 0;
    while i < raw.len()
        invariant
            i <= raw@.len(),
            out@ == tmux_prefix() + double_escapes(raw@.take(i as int)),
        decreases raw@.len() - i,
    {
        let b = raw[i];
        assert(raw@.take(i + 1).drop_last() == raw@.take(i as int));
        if b == ESC {
            out.push(ESC);
            out.push(ESC);
        } else {
            out.push(b);
        }
        i = i + 1;
    }
    assert(raw@.take(raw@.len() as int) == raw@);
    out.push(ESC);
    out.push(0x5c);
    assert(out@ =~= tmux_wrapped(raw@));
    proof {
        lemma_tmux_wrapped_len(raw@);
        assert(out@.take(7) =~= tmux_prefix());
        assert(out@.skip(out@.len() - 2) =~= string_terminator());
        assert forall|i: int| 0 <= i < raw@.len() implies out@[7 + i + count_escapes(#[trigger] raw@.take(i))] == raw@[i]
            && (raw@[i] == 0x1b ==> out@[7 + i + count_escapes(raw@.take(i)) + 1] == 0x1b) by {
            lemma_tmux_wrapped_bytes(raw@, i);
        }
    }
    out
}

} // verus!
