//! Path admission for `load`: a submitted path is accepted only if it names
//! an existing regular file whose extension (ASCII case-insensitive) is not
//! on a fixed denylist of non-audio formats.

use vstd::prelude::*;

use crate::parse::{copy_bytes, word_eq};

verus! {

broadcast use crate::model::lemma_bytes_deep_view;

/// The ASCII slash byte, the path component separator.
pub const SLASH: u8 = 47;

/// The ASCII dot byte, the extension separator.
pub const DOT: u8 = 46;

/// The suffix of `s` after the last occurrence of `b`; all of `s` when `b`
/// does not occur.
pub open spec fn suffix_after_last(s: Seq<u8>, b: u8) -> Seq<u8>
    decreases s.len(),
{
    if s.len() == 0 {
        s
    } else if s.last() == b {
        Seq::empty()
    } else {
        suffix_after_last(s.drop_last(), b).push(s.last())
    }
}

/// When `b` does not occur in `s`, the suffix after its last occurrence is
/// all of `s`.
pub proof fn lemma_suffix_no_occurrence(s: Seq<u8>, b: u8)
    requires
        forall|k: int| 0 <= k < s.len() ==> s[k] != b,
    ensures
        suffix_after_last(s, b) == s,
    decreases s.len(),
{
    if s.len() > 0 {
        lemma_suffix_no_occurrence(s.drop_last(), b);
        assert(suffix_after_last(s, b) =~= s);
    }
}

/// When the last occurrence of `b` in `s` is at index `l`, the suffix after
/// it is everything from `l + 1` on.
pub proof fn lemma_suffix_last_at(s: Seq<u8>, b: u8, l: int)
    requires
        0 <= l < s.len(),
        s[l] == b,
        forall|k: int| l < k < s.len() ==> s[k] != b,
    ensures
        suffix_after_last(s, b) == s.skip(l + 1),
    decreases s.len(),
{
    if l == s.len() - 1 {
        assert(suffix_after_last(s, b) =~= s.skip(l + 1));
    } else {
        assert(s[s.len() - 1] != b);
        lemma_suffix_last_at(s.drop_last(), b, l);
        assert(suffix_after_last(s, b) =~= s.skip(l + 1));
    }
}

/// The file name of a path: everything after the last slash.
pub open spec fn file_name_of(p: Seq<u8>) -> Seq<u8> {
    suffix_after_last(p, SLASH)
}

/// The extension of a path: the part of its file name after the last dot,
/// or nothing when the file name has no dot past its first byte.
pub open spec fn extension_of(p: Seq<u8>) -> Option<Seq<u8>> {
    let name = file_name_of(p);
    if exists|k: int| 1 <= k < name.len() && name[k] == DOT {
        Some(suffix_after_last(name, DOT))
    } else {
        None
    }
}

/// ASCII lowercasing of one byte.
pub open spec fn lower_byte(b: u8) -> u8 {
    if 65 <= b <= 90 {
        (b + 32) as u8
    } else {
        b
    }
}

/// ASCII lowercasing, byte for byte.
pub open spec fn lower_bytes(s: Seq<u8>) -> Seq<u8> {
    Seq::new(s.len(), |i: int| lower_byte(s[i]))
}

/// The denylisted extension `htm`.
pub open spec fn ext_htm() -> Seq<u8> {
    seq![104u8, 116u8, 109u8]
}

/// The denylisted extension `html`.
pub open spec fn ext_html() -> Seq<u8> {
    seq![104u8, 116u8, 109u8, 108u8]
}

/// The denylisted extension `jpg`.
pub open spec fn ext_jpg() -> Seq<u8> {
    seq![106u8, 112u8, 103u8]
}

/// The denylisted extension `jpeg`.
pub open spec fn ext_jpeg() -> Seq<u8> {
    seq![106u8, 112u8, 101u8, 103u8]
}

/// The denylisted extension `ini`.
pub open spec fn ext_ini() -> Seq<u8> {
    seq![105u8, 110u8, 105u8]
}

/// The denylisted extension `bmp`.
pub open spec fn ext_bmp() -> Seq<u8> {
    seq![98u8, 109u8, 112u8]
}

/// The denylisted extension `db`.
pub open spec fn ext_db() -> Seq<u8> {
    seq![100u8, 98u8]
}

/// The denylisted extension `doc`.
pub open spec fn ext_doc() -> Seq<u8> {
    seq![100u8, 111u8, 99u8]
}

/// The denylisted extension `dtt`.
pub open spec fn ext_dtt() -> Seq<u8> {
    seq![100u8, 116u8, 116u8]
}

/// The denylisted extension `gif`.
pub open spec fn ext_gif() -> Seq<u8> {
    seq![103u8, 105u8, 102u8]
}

/// The denylisted extension `listing`.
pub open spec fn ext_listing() -> Seq<u8> {
    seq![108u8, 105u8, 115u8, 116u8, 105u8, 110u8, 103u8]
}

/// The denylisted extension `m3u`.
pub open spec fn ext_m3u() -> Seq<u8> {
    seq![109u8, 51u8, 117u8]
}

/// The denylisted extension `nfo`.
pub open spec fn ext_nfo() -> Seq<u8> {
    seq![110u8, 102u8, 111u8]
}

/// The denylisted extension `out`.
pub open spec fn ext_out() -> Seq<u8> {
    seq![111u8, 117u8, 116u8]
}

/// The denylisted extension `pls`.
pub open spec fn ext_pls() -> Seq<u8> {
    seq![112u8, 108u8, 115u8]
}

/// The denylisted extension `txt`.
pub open spec fn ext_txt() -> Seq<u8> {
    seq![116u8, 120u8, 116u8]
}

/// The denylisted extension `toc`.
pub open spec fn ext_toc() -> Seq<u8> {
    seq![116u8, 111u8, 99u8]
}

/// The denylisted extension `zip`.
pub open spec fn ext_zip() -> Seq<u8> {
    seq![122u8, 105u8, 112u8]
}

/// Is a lowercased extension on the denylist of non-audio formats?
pub open spec fn is_forbidden_lower(e: Seq<u8>) -> bool {
    ||| e == ext_htm()
    ||| e == ext_html()
    ||| e == ext_jpg()
    ||| e == ext_jpeg()
    ||| e == ext_ini()
    ||| e == ext_bmp()
    ||| e == ext_db()
    ||| e == ext_doc()
    ||| e == ext_dtt()
    ||| e == ext_gif()
    ||| e == ext_listing()
    ||| e == ext_m3u()
    ||| e == ext_nfo()
    ||| e == ext_out()
    ||| e == ext_pls()
    ||| e == ext_txt()
    ||| e == ext_toc()
    ||| e == ext_zip()
}

/// Is a path's extension on the denylist (compared case-insensitively)?
pub open spec fn has_forbidden_ext(p: Seq<u8>) -> bool {
    match extension_of(p) {
        Some(e) => is_forbidden_lower(lower_bytes(e)),
        None => false,
    }
}

/// A path is admitted into the song list if and only if it names an existing
/// regular file (reported by the caller) and its extension is not on the
/// denylist.
pub open spec fn admitted(p: Seq<u8>, is_file: bool) -> bool {
    is_file && !has_forbidden_ext(p)
}

/// Is a lowercased extension on the denylist?
fn forbidden_lower(ext: &Vec<u8>) -> (r: bool)
    ensures
        r == is_forbidden_lower(ext@),
{
    let lit_htm: Vec<u8> = vec![104u8, 116u8, 109u8];
    proof {
        assert(lit_htm@ =~= ext_htm());
    }
    if word_eq(ext, &lit_htm) {
        return true;
    }
    let lit_html: Vec<u8> = vec![104u8, 116u8, 109u8, 108u8];
    proof {
        assert(lit_html@ =~= ext_html());
    }
    if word_eq(ext, &lit_html) {
        return true;
    }
    let lit_jpg: Vec<u8> = vec![106u8, 112u8, 103u8];
    proof {
        assert(lit_jpg@ =~= ext_jpg());
    }
    if word_eq(ext, &lit_jpg) {
        return true;
    }
    let lit_jpeg: Vec<u8> = vec![106u8, 112u8, 101u8, 103u8];
    proof {
        assert(lit_jpeg@ =~= ext_jpeg());
    }
    if word_eq(ext, &lit_jpeg) {
        return true;
    }
    let lit_ini: Vec<u8> = vec![105u8, 110u8, 105u8];
    proof {
        assert(lit_ini@ =~= ext_ini());
    }
    if word_eq(ext, &lit_ini) {
        return true;
    }
    let lit_bmp: Vec<u8> = vec![98u8, 109u8, 112u8];
    proof {
        assert(lit_bmp@ =~= ext_bmp());
    }
    if word_eq(ext, &lit_bmp) {
        return true;
    }
    let lit_db: Vec<u8> = vec![100u8, 98u8];
    proof {
        assert(lit_db@ =~= ext_db());
    }
    if word_eq(ext, &lit_db) {
        return true;
    }
    let lit_doc: Vec<u8> = vec![100u8, 111u8, 99u8];
    proof {
        assert(lit_doc@ =~= ext_doc());
    }
    if word_eq(ext, &lit_doc) {
        return true;
    }
    let lit_dtt: Vec<u8> = vec![100u8, 116u8, 116u8];
    proof {
        assert(lit_dtt@ =~= ext_dtt());
    }
    if word_eq(ext, &lit_dtt) {
        return true;
    }
    let lit_gif: Vec<u8> = vec![103u8, 105u8, 102u8];
    proof {
        assert(lit_gif@ =~= ext_gif());
    }
    if word_eq(ext, &lit_gif) {
        return true;
    }
    let lit_listing: Vec<u8> = vec![108u8, 105u8, 115u8, 116u8, 105u8, 110u8, 103u8];
    proof {
        assert(lit_listing@ =~= ext_listing());
    }
    if word_eq(ext, &lit_listing) {
        return true;
    }
    let lit_m3u: Vec<u8> = vec![109u8, 51u8, 117u8];
    proof {
        assert(lit_m3u@ =~= ext_m3u());
    }
    if word_eq(ext, &lit_m3u) {
        return true;
    }
    let lit_nfo: Vec<u8> = vec![110u8, 102u8, 111u8];
    proof {
        assert(lit_nfo@ =~= ext_nfo());
    }
    if word_eq(ext, &lit_nfo) {
        return true;
    }
    let lit_out: Vec<u8> = vec![111u8, 117u8, 116u8];
    proof {
        assert(lit_out@ =~= ext_out());
    }
    if word_eq(ext, &lit_out) {
        return true;
    }
    let lit_pls: Vec<u8> = vec![112u8, 108u8, 115u8];
    proof {
        assert(lit_pls@ =~= ext_pls());
    }
    if word_eq(ext, &lit_pls) {
        return true;
    }
    let lit_txt: Vec<u8> = vec![116u8, 120u8, 116u8];
    proof {
        assert(lit_txt@ =~= ext_txt());
    }
    if word_eq(ext, &lit_txt) {
        return true;
    }
    let lit_toc: Vec<u8> = vec![116u8, 111u8, 99u8];
    proof {
        assert(lit_toc@ =~= ext_toc());
    }
    if word_eq(ext, &lit_toc) {
        return true;
    }
    let lit_zip: Vec<u8> = vec![122u8, 105u8, 112u8];
    proof {
        assert(lit_zip@ =~= ext_zip());
    }
    if word_eq(ext, &lit_zip) {
        return true;
    }
    false
}

/// Does a path pass admission, given whether it names an existing regular
/// file (a fact only the caller can know)?
pub fn path_admissible(path: &Vec<u8>, is_file: bool) -> (r: bool)
    ensures
        r == admitted(path@, is_file),
{
    if !is_file {
        return false;
    }
    // Find the index right after the last slash: the file name starts there.
    let mut j: usize = path.len();
    while j > 0 && path[j - 1] != SLASH
        invariant
            j <= path.len(),
            forall|k: int| j <= k < path@.len() ==> path@[k] != SLASH,
        decreases j,
    {
        j = j - 1;
    }
    proof {
        if j == 0 {
            lemma_suffix_no_occurrence(path@, SLASH);
            assert(path@.skip(0) =~= path@);
        } else {
            lemma_suffix_last_at(path@, SLASH, j - 1);
        }
        assert(file_name_of(path@) == path@.skip(j as int));
    }
    // Find the index right after the last dot inside the file name.
    let mut d: usize = path.len();
    while d > j && path[d - 1] != DOT
        invariant
            j <= d <= path.len(),
            forall|k: int| d <= k < path@.len() ==> path@[k] != DOT,
        decreases d,
    {
        d = d - 1;
    }
    let ghost name = file_name_of(path@);
    if d == j || d - 1 == j {
        // No dot in the file name, or only a leading one: no extension.
        proof {
            assert(forall|k: int| 1 <= k < name.len() ==> name[k] == path@[j + k] && name[k]
                != DOT);
            assert(extension_of(path@) is None);
        }
        return true;
    }
    proof {
        assert(name[d - 1 - j as int] == DOT);
        assert(extension_of(path@) is Some);
        assert(forall|k: int| d - 1 - j < k < name.len() ==> name[k] == path@[j + k] && name[k]
            != DOT);
        lemma_suffix_last_at(name, DOT, d - 1 - j as int);
        assert(suffix_after_last(name, DOT) =~= path@.skip(d as int));
    }
    // Lowercase the extension bytes.
    let mut ext: Vec<u8> = Vec::new();
    let mut k = d;
    while k < path.len()
        invariant
            d <= k <= path.len(),
            ext@ == lower_bytes(path@.skip(d as int)).take(k - d),
        decreases path.len() - k,
    {
        let b = path[k];
        let lb: u8 = if 65 <= b && b <= 90 {
            b + 32
        } else {
            b
        };
        ext.push(lb);
        k = k + 1;
        proof {
            assert(ext@ =~= lower_bytes(path@.skip(d as int)).take(k - d));
        }
    }
    proof {
        assert(ext@ =~= lower_bytes(path@.skip(d as int)));
    }
    !forbidden_lower(&ext)
}

/// The admitted paths of a submitted batch, in order: each entry pairs a
/// path with whether it names an existing regular file.
pub open spec fn admitted_list(entries: Seq<(Seq<u8>, bool)>) -> Seq<Seq<u8>>
    decreases entries.len(),
{
    if entries.len() == 0 {
        Seq::empty()
    } else {
        let rest = admitted_list(entries.drop_last());
        let e = entries.last();
        if admitted(e.0, e.1) {
            rest.push(e.0)
        } else {
            rest
        }
    }
}

/// Filter a submitted batch of paths down to the admitted ones, in order.
/// Rejected entries are dropped silently, as the protocol prescribes.
pub fn filter_admissible(entries: &Vec<(Vec<u8>, bool)>) -> (songs: Vec<Vec<u8>>)
    ensures
        songs.deep_view() == admitted_list(entries.deep_view()),
{
    let mut songs: Vec<Vec<u8>> = Vec::new();
    let mut i: usize = 0;
    proof {
        assert(entries.deep_view().take(0) =~= Seq::<(Seq<u8>, bool)>::empty());
        assert(songs.deep_view() =~= admitted_list(entries.deep_view().take(0)));
    }
    while i < entries.len()
        invariant
            i <= entries.len(),
            entries.deep_view().len() == entries@.len(),
            songs.deep_view() == admitted_list(entries.deep_view().take(i as int)),
        decreases entries.len() - i,
    {
        let ghost prefix = entries.deep_view().take(i as int);
        let ghost grown = entries.deep_view().take(i as int + 1);
        proof {
            assert(grown.drop_last() =~= prefix);
            assert(grown.last() == entries.deep_view()[i as int]);
            assert(entries.deep_view()[i as int].0 == entries@[i as int].0@);
        }
        let entry = &entries[i];
        let ghost before = songs.deep_view();
        if path_admissible(&entry.0, entry.1) {
            let song = copy_bytes(&entry.0);
            songs.push(song);
            proof {
                assert(songs.deep_view() =~= before.push(entries.deep_view()[i as int].0));
            }
        }
        i = i + 1;
    }
    proof {
        assert(entries.deep_view().take(i as int) =~= entries.deep_view());
    }
    songs
}

} // verus!
