//! What the editor front end computes: the buffer padding that keeps the two
//! panes at a stable height, the introductory banner, and the errors its file
//! handling reports. The widgets, rendering and file dialogs around these live
//! with the front end itself; only their decisions are here.

use vstd::prelude::*;

verus! {

/// Why loading or saving a buffer failed.
#[derive(Debug)]
pub enum Error {
    DialogClosed,
    IOFailed(std::io::ErrorKind),
}

/// The file-handling error kind std reports, opaque here: the front end only
/// carries it.
#[verifier::external_type_specification]
#[verifier::external_body]
pub struct ExErrorKind(std::io::ErrorKind);

/// How many newlines a text holds.
pub open spec fn count_newlines(s: Seq<char>) -> nat
    decreases s.len(),
{
    if s.len() == 0 {
        0
    } else {
        count_newlines(s.drop_last()) + (if s.last() == '\n' {
            1nat
        } else {
            0nat
        })
    }
}

/// A run of newlines.
pub open spec fn newlines(n: int) -> Seq<char> {
    Seq::new(n as nat, |i: int| '\n')
}

/// A text padded with newlines up to `n` of them: a text already holding more
/// than `n` newlines is kept as it is.
pub open spec fn pad_spec(text: Seq<char>, n: u32) -> Seq<char> {
    if count_newlines(text) > n {
        text
    } else {
        text + newlines(n - count_newlines(text))
    }
}

/// Pads a buffer with trailing newlines up to `n` of them, so a pane keeps a
/// stable height; a buffer already holding more than `n` newlines is kept as
/// it is.
#[verifier::loop_isolation(false)]
pub fn pad_lines(text: String, n: u32) -> (r: String)
    ensures
        r@ == pad_spec(text@, n),
{
    let len = text.as_str().unicode_len();
    let mut nlines: usize = 0;
    let mut i: usize = 0;
    while i < len
        invariant
            0 <= i <= text@.len(),
            nlines <= i,
            nlines == count_newlines(text@.subrange(0, i as int)),
        decreases text@.len() - i,
    {
        let c = text.as_str().get_char(i);
        if c == '\n' {
            nlines = nlines + 1;
        }
        proof {
            assert(text@.subrange(0, i + 1).drop_last() =~= text@.subrange(0, i as int));
            assert(text@.subrange(0, i + 1).last() == text@[i as int]);
        }
        i = i + 1;
    }
    proof {
        assert(text@.subrange(0, text@.len() as int) =~= text@);
    }
    if nlines > n as usize {
        text
    } else {
        let ghost orig: Seq<char> = text@;
        let mut padded = text;
        let pad: usize = n as usize - nlines;
        let mut k: usize = 0;
        while k < pad
            invariant
                0 <= k <= pad,
                padded@ == orig + newlines(k as int),
            decreases pad - k,
        {
            padded.append("\n");
            proof {
                reveal_strlit("\n");
                assert(orig + newlines(k as int) + "\n"@ =~= orig + newlines(k + 1));
            }
            k = k + 1;
        }
        proof {
            assert(orig + newlines(pad as int) =~= pad_spec(orig, n));
        }
        padded
    }
}

/// The introductory banner the editor shows: the runtime's version and the
/// loaded system image, padded to the pane height.
pub fn intro(version: &str) -> (r: String)
    ensures
        r@ == pad_spec(
            ";;; mu "@ + version@ + "\n"@ + ";;; /opt/mu/lib/core.sys loaded\n"@,
            30,
        ),
{
    let mut banner = String::from_str(";;; mu ");
    banner.append(version);
    banner.append("\n");
    banner.append(";;; /opt/mu/lib/core.sys loaded\n");
    pad_lines(banner, 30)
}

} // verus!
