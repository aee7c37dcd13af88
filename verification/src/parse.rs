//! Parsing of the line-oriented control protocol: one command per line,
//! whitespace-separated ASCII words.

use vstd::prelude::*;

use crate::model::Mode;

verus! {

broadcast use crate::model::lemma_bytes_deep_view;

/// The ASCII space byte, the protocol's only word separator.
pub const SPACE: u8 = 32;

/// One parsed line of the control protocol.
#[derive(Clone, Copy, Debug, PartialEq, Eq, Structural)]
pub enum ParsedCmd {
    /// `mode` with a known policy name.
    SetMode(Mode),
    /// `load [append]`: song paths follow, one per line, ended by an empty
    /// line.
    Load { append: bool },
    /// `play`.
    Play,
    /// `next`.
    Next,
    /// `prev`.
    Prev,
    /// `stop`.
    Stop,
    /// `quit`: close only this connection.
    Quit,
    /// `terminate`: stop playback, confirm, then exit the whole daemon.
    Terminate,
    /// A line without words: ignored.
    Empty,
    /// `mode` without an argument.
    MissingMode,
    /// `mode` with an unknown policy name.
    UnknownMode,
    /// Any other first word.
    Unknown,
}

/// Length of the leading run of non-space bytes.
pub open spec fn word_end(s: Seq<u8>) -> nat
    decreases s.len(),
{
    if s.len() == 0 || s[0] == SPACE {
        0
    } else {
        (1 + word_end(s.skip(1))) as nat
    }
}

/// The space-separated words of a line, in order, empties dropped.
pub open spec fn words_of(s: Seq<u8>) -> Seq<Seq<u8>>
    decreases s.len(),
    via words_of_decreases
{
    if s.len() == 0 {
        Seq::empty()
    } else if s[0] == SPACE {
        words_of(s.skip(1))
    } else {
        let e = 1 + word_end(s.skip(1)) as int;
        seq![s.take(e)] + words_of(s.skip(e))
    }
}

#[via_fn]
proof fn words_of_decreases(s: Seq<u8>) {
    if s.len() > 0 && s[0] != SPACE {
        lemma_word_end(s.skip(1));
    }
}

/// The leading word runs exactly to the first space or the end of the line.
pub proof fn lemma_word_end(s: Seq<u8>)
    ensures
        word_end(s) <= s.len(),
        forall|k: int| 0 <= k < word_end(s) ==> s[k] != SPACE,
        word_end(s) < s.len() ==> s[word_end(s) as int] == SPACE,
    decreases s.len(),
{
    if s.len() > 0 && s[0] != SPACE {
        lemma_word_end(s.skip(1));
        assert forall|k: int| 0 <= k < word_end(s) implies s[k] != SPACE by {
            if k > 0 {
                assert(s.skip(1)[k - 1] == s[k]);
            }
        }
        if word_end(s) < s.len() {
            assert(s.skip(1)[word_end(s) as int - 1] == s[word_end(s) as int]);
        }
    }
}

/// The protocol word `mode`.
pub open spec fn word_mode() -> Seq<u8> {
    seq![109u8, 111u8, 100u8, 101u8]
}

/// The policy name `random`.
pub open spec fn word_random() -> Seq<u8> {
    seq![114u8, 97u8, 110u8, 100u8, 111u8, 109u8]
}

/// The policy name `sequence`.
pub open spec fn word_sequence() -> Seq<u8> {
    seq![115u8, 101u8, 113u8, 117u8, 101u8, 110u8, 99u8, 101u8]
}

/// The policy name `circular`.
pub open spec fn word_circular() -> Seq<u8> {
    seq![99u8, 105u8, 114u8, 99u8, 117u8, 108u8, 97u8, 114u8]
}

/// The protocol word `load`.
pub open spec fn word_load() -> Seq<u8> {
    seq![108u8, 111u8, 97u8, 100u8]
}

/// The flag word `append`.
pub open spec fn word_append() -> Seq<u8> {
    seq![97u8, 112u8, 112u8, 101u8, 110u8, 100u8]
}

/// The protocol word `play`.
pub open spec fn word_play() -> Seq<u8> {
    seq![112u8, 108u8, 97u8, 121u8]
}

/// The protocol word `next`.
pub open spec fn word_next() -> Seq<u8> {
    seq![110u8, 101u8, 120u8, 116u8]
}

/// The protocol word `prev`.
pub open spec fn word_prev() -> Seq<u8> {
    seq![112u8, 114u8, 101u8, 118u8]
}

/// The protocol word `stop`.
pub open spec fn word_stop() -> Seq<u8> {
    seq![115u8, 116u8, 111u8, 112u8]
}

/// The protocol word `quit`.
pub open spec fn word_quit() -> Seq<u8> {
    seq![113u8, 117u8, 105u8, 116u8]
}

/// The protocol word `terminate`.
pub open spec fn word_terminate() -> Seq<u8> {
    seq![116u8, 101u8, 114u8, 109u8, 105u8, 110u8, 97u8, 116u8, 101u8]
}

/// What a line of the protocol means: the first word picks the command;
/// `mode` reads one policy name; `load` takes an `append` flag anywhere in
/// the rest of the line; anything unrecognized is reported as such.
pub open spec fn parse_spec(line: Seq<u8>) -> ParsedCmd {
    let w = words_of(line);
    if w.len() == 0 {
        ParsedCmd::Empty
    } else if w[0] == word_mode() {
        if w.len() < 2 {
            ParsedCmd::MissingMode
        } else if w[1] == word_random() {
            ParsedCmd::SetMode(Mode::Random)
        } else if w[1] == word_sequence() {
            ParsedCmd::SetMode(Mode::Sequence)
        } else if w[1] == word_circular() {
            ParsedCmd::SetMode(Mode::Circular)
        } else {
            ParsedCmd::UnknownMode
        }
    } else if w[0] == word_load() {
        ParsedCmd::Load { append: exists|j: int| 1 <= j < w.len() && w[j] == word_append() }
    } else if w[0] == word_play() {
        ParsedCmd::Play
    } else if w[0] == word_next() {
        ParsedCmd::Next
    } else if w[0] == word_prev() {
        ParsedCmd::Prev
    } else if w[0] == word_stop() {
        ParsedCmd::Stop
    } else if w[0] == word_quit() {
        ParsedCmd::Quit
    } else if w[0] == word_terminate() {
        ParsedCmd::Terminate
    } else {
        ParsedCmd::Unknown
    }
}

/// Split a line into its space-separated words, empties dropped.
pub fn tokenize(line: &Vec<u8>) -> (words: Vec<Vec<u8>>)
    ensures
        words.deep_view() == words_of(line@),
{
    let mut words: Vec<Vec<u8>> = Vec::new();
    let mut i: usize = 0;
    proof {
        assert(line@.skip(0) =~= line@);
        assert(words.deep_view() + words_of(line@) =~= words_of(line@));
    }
    while i < line.len()
        invariant
            i <= line.len(),
            words_of(line@) == words.deep_view() + words_of(line@.skip(i as int)),
        decreases line.len() - i,
    {
        if line[i] == SPACE {
            proof {
                assert(line@.skip(i as int).skip(1) =~= line@.skip(i as int + 1));
            }
            i = i + 1;
        } else {
            let start = i;
            let mut w: Vec<u8> = Vec::new();
            while i < line.len() && line[i] != SPACE
                invariant
                    start <= i <= line.len(),
                    start < line.len(),
                    line@[start as int] != SPACE,
                    w@ == line@.subrange(start as int, i as int),
                    forall|k: int| start <= k < i ==> line@[k] != SPACE,
                decreases line.len() - i,
            {
                w.push(line[i]);
                i = i + 1;
                proof {
                    assert(w@ =~= line@.subrange(start as int, i as int));
                }
            }
            proof {
                let t = line@.skip(start as int);
                lemma_word_end(t);
                assert(forall|k: int| 0 <= k < t.len() ==> t[k] == line@[start + k]);
                let e = i - start;
                assert(forall|k: int| 0 <= k < e ==> t[k] != SPACE);
                if word_end(t) < e {
                    assert(t[word_end(t) as int] == SPACE);
                    assert(false);
                }
                if word_end(t) > e {
                    if i < line.len() {
                        assert(t[e] == SPACE);
                        assert(false);
                    } else {
                        assert(word_end(t) <= t.len());
                        assert(false);
                    }
                }
                assert(word_end(t) == e);
                assert(t.take(e) =~= line@.subrange(start as int, i as int));
                assert(t.skip(e) =~= line@.skip(i as int));
                assert(words_of(t) == seq![w@] + words_of(line@.skip(i as int)));
            }
            let ghost prev_words = words.deep_view();
            let ghost w_view = w@;
            words.push(w);
            proof {
                assert(words.deep_view() =~= prev_words.push(w_view));
                assert(prev_words.push(w_view) =~= prev_words + seq![w_view]);
                assert((prev_words + seq![w_view]) + words_of(line@.skip(i as int)) =~= prev_words
                    + (seq![w_view] + words_of(line@.skip(i as int))));
            }
        }
    }
    proof {
        assert(line@.skip(i as int).len() == 0);
        assert(words_of(line@.skip(i as int)) =~= Seq::<Seq<u8>>::empty());
        assert(words.deep_view() + Seq::<Seq<u8>>::empty() =~= words.deep_view());
    }
    words
}

/// Copy a byte string.
pub(crate) fn copy_bytes(s: &Vec<u8>) -> (r: Vec<u8>)
    ensures
        r@ == s@,
{
    let mut r: Vec<u8> = Vec::new();
    let mut i: usize = 0;
    while i < s.len()
        invariant
            i <= s.len(),
            r@ == s@.take(i as int),
        decreases s.len() - i,
    {
        r.push(s[i]);
        i = i + 1;
        proof {
            assert(r@ =~= s@.take(i as int));
        }
    }
    proof {
        assert(s@.take(s.len() as int) =~= s@);
    }
    r
}

/// Compare a word against an expected spelling.
pub(crate) fn word_eq(w: &Vec<u8>, lit: &Vec<u8>) -> (r: bool)
    ensures
        r == (w@ == lit@),
{
    if w.len() != lit.len() {
        return false;
    }
    let mut i: usize = 0;
    while i < w.len()
        invariant
            i <= w.len(),
            w.len() == lit.len(),
            forall|k: int| 0 <= k < i ==> w@[k] == lit@[k],
        decreases w.len() - i,
    {
        if w[i] != lit[i] {
            return false;
        }
        i = i + 1;
    }
    proof {
        assert(w@ =~= lit@);
    }
    true
}

/// Parse one line of the control protocol.
pub fn parse_command(line: &Vec<u8>) -> (c: ParsedCmd)
    ensures
        c == parse_spec(line@),
{
    let words = tokenize(line);
    if words.len() == 0 {
        return ParsedCmd::Empty;
    }
    proof {
        assert(words.deep_view()[0] == words@[0]@);
    }
    let lit_mode: Vec<u8> = vec![109u8, 111u8, 100u8, 101u8];
    proof {
        assert(lit_mode@ =~= word_mode());
    }
    if word_eq(&words[0], &lit_mode) {
        if words.len() < 2 {
            return ParsedCmd::MissingMode;
        }
        proof {
            assert(words.deep_view()[1] == words@[1]@);
        }
        let lit_random: Vec<u8> = vec![114u8, 97u8, 110u8, 100u8, 111u8, 109u8];
        proof {
            assert(lit_random@ =~= word_random());
        }
        if word_eq(&words[1], &lit_random) {
            return ParsedCmd::SetMode(Mode::Random);
        }
        let lit_sequence: Vec<u8> = vec![115u8, 101u8, 113u8, 117u8, 101u8, 110u8, 99u8, 101u8];
        proof {
            assert(lit_sequence@ =~= word_sequence());
        }
        if word_eq(&words[1], &lit_sequence) {
            return ParsedCmd::SetMode(Mode::Sequence);
        }
        let lit_circular: Vec<u8> = vec![99u8, 105u8, 114u8, 99u8, 117u8, 108u8, 97u8, 114u8];
        proof {
            assert(lit_circular@ =~= word_circular());
        }
        if word_eq(&words[1], &lit_circular) {
            return ParsedCmd::SetMode(Mode::Circular);
        }
        return ParsedCmd::UnknownMode;
    }
    let lit_load: Vec<u8> = vec![108u8, 111u8, 97u8, 100u8];
    proof {
        assert(lit_load@ =~= word_load());
    }
    if word_eq(&words[0], &lit_load) {
        let lit_append: Vec<u8> = vec![97u8, 112u8, 112u8, 101u8, 110u8, 100u8];
        proof {
            assert(lit_append@ =~= word_append());
        }
        let mut j: usize = 1;
        let mut append = false;
        while j < words.len()
            invariant
                1 <= j <= words@.len(),
                lit_append@ == word_append(),
                append == exists|k: int| 1 <= k < j && words.deep_view()[k] == word_append(),
            decreases words.len() - j,
        {
            proof {
                assert(words.deep_view()[j as int] == words@[j as int]@);
            }
            if word_eq(&words[j], &lit_append) {
                append = true;
            }
            j = j + 1;
        }
        return ParsedCmd::Load { append };
    }
    let lit_play: Vec<u8> = vec![112u8, 108u8, 97u8, 121u8];
    proof {
        assert(lit_play@ =~= word_play());
    }
    if word_eq(&words[0], &lit_play) {
        return ParsedCmd::Play;
    }
    let lit_next: Vec<u8> = vec![110u8, 101u8, 120u8, 116u8];
    proof {
        assert(lit_next@ =~= word_next());
    }
    if word_eq(&words[0], &lit_next) {
        return ParsedCmd::Next;
    }
    let lit_prev: Vec<u8> = vec![112u8, 114u8, 101u8, 118u8];
    proof {
        assert(lit_prev@ =~= word_prev());
    }
    if word_eq(&words[0], &lit_prev) {
        return ParsedCmd::Prev;
    }
    let lit_stop: Vec<u8> = vec![115u8, 116u8, 111u8, 112u8];
    proof {
        assert(lit_stop@ =~= word_stop());
    }
    if word_eq(&words[0], &lit_stop) {
        return ParsedCmd::Stop;
    }
    let lit_quit: Vec<u8> = vec![113u8, 117u8, 105u8, 116u8];
    proof {
        assert(lit_quit@ =~= word_quit());
    }
    if word_eq(&words[0], &lit_quit) {
        return ParsedCmd::Quit;
    }
    let lit_terminate: Vec<u8> = vec![116u8, 101u8, 114u8, 109u8, 105u8, 110u8, 97u8, 116u8, 101u8];
    proof {
        assert(lit_terminate@ =~= word_terminate());
    }
    if word_eq(&words[0], &lit_terminate) {
        return ParsedCmd::Terminate;
    }
    ParsedCmd::Unknown
}

} // verus!
