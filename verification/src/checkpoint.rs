//! The checkpoint record: a small keyed text file that stores how far a
//! scan has progressed, so that an interrupted run can resume.
//!
//! The on-disk format is line oriented, `key=value`:
//!
//! ```text
//! next_index=<nonnegative integer>
//! targets=<path>
//! output=<path>
//! mode=<probe family name>
//! ```
//!
//! Unrecognised keys are ignored, keys and values are trimmed, a repeated
//! key keeps its last value, and a missing required key or an unparsable
//! index makes the whole record unreadable (`None`).

use vstd::prelude::*;

use crate::text::{
    all_digits, dec_rep, dec_val, opt_view, parse_usize, push_dec_u64, str_eq, str_trim, trimmed,
};
use crate::text::{lemma_dec_rep_digits, lemma_dec_val_of_rep, lemma_digits_trim_stable};

verus! {

/// Progress of a scan: `next_index` is the exclusive upper bound of the
/// targets already completed, the remaining fields tie the record to the
/// run that wrote it.
#[derive(Debug, Clone)]
pub struct Checkpoint {
    pub next_index: usize,
    pub targets_path: String,
    pub output_path: String,
    pub mode: String,
}

/// The mathematical content of a [`Checkpoint`].
pub ghost struct CheckpointView {
    pub next_index: nat,
    pub targets_path: Seq<char>,
    pub output_path: Seq<char>,
    pub mode: Seq<char>,
}

impl View for Checkpoint {
    type V = CheckpointView;

    open spec fn view(&self) -> CheckpointView {
        CheckpointView {
            next_index: self.next_index as nat,
            targets_path: self.targets_path@,
            output_path: self.output_path@,
            mode: self.mode@,
        }
    }
}

impl Checkpoint {
    /// A checkpoint with the given fields.
    pub fn new(next_index: usize, targets_path: String, output_path: String, mode: String) -> (r:
        Checkpoint)
        ensures
            r@ == (CheckpointView {
                next_index: next_index as nat,
                targets_path: targets_path@,
                output_path: output_path@,
                mode: mode@,
            }),
    {
        Checkpoint { next_index, targets_path, output_path, mode }
    }

    /// The serialised text of this checkpoint.
    pub fn to_string(&self) -> (r: String)
        ensures
            r@ == checkpoint_text(self@),
    {
        let mut s = String::new();
        s.append("next_index=");
        push_dec_u64(&mut s, self.next_index as u64);
        s.append("\n");
        s.append("targets=");
        s.append(self.targets_path.as_str());
        s.append("\n");
        s.append("output=");
        s.append(self.output_path.as_str());
        s.append("\n");
        s.append("mode=");
        s.append(self.mode.as_str());
        s.append("\n");
        proof {
            assert(s@ =~= checkpoint_text(self@));
        }
        s
    }
}

/// The serialised form: four `key=value` lines, each ended by a newline.
pub open spec fn checkpoint_text(c: CheckpointView) -> Seq<char> {
    "next_index="@ + dec_rep(c.next_index) + "\n"@ + "targets="@ + c.targets_path + "\n"@
        + "output="@ + c.output_path + "\n"@ + "mode="@ + c.mode + "\n"@
}

/// The index of the first occurrence of `c` in `s`, if any.
pub open spec fn find_char(s: Seq<char>, c: char) -> Option<int>
    decreases s.len(),
{
    if s.len() == 0 {
        None
    } else if s[0] == c {
        Some(0)
    } else {
        match find_char(s.drop_first(), c) {
            Some(i) => Some(i + 1),
            None => None,
        }
    }
}

/// `find_char` answers as the first occurrence: if no occurrence lies
/// before `k`, and `k` (when in range) holds one, the answer is `k`.
pub proof fn lemma_find_char_at(s: Seq<char>, c: char, k: int)
    requires
        0 <= k <= s.len(),
        forall|j: int| 0 <= j < k ==> s[j] != c,
        k < s.len() ==> s[k] == c,
    ensures
        find_char(s, c) == if k < s.len() {
            Some(k)
        } else {
            None::<int>
        },
    decreases k,
{
    if k == 0 {
    } else {
        lemma_find_char_at(s.drop_first(), c, k - 1);
    }
}

/// `s` divided at every occurrence of `sep`; the separators themselves do
/// not appear, and an ended final segment yields a trailing empty piece.
pub open spec fn split_on(s: Seq<char>, sep: char) -> Seq<Seq<char>>
    decreases s.len(),
{
    match find_char(s, sep) {
        None => seq![s],
        Some(i) => if 0 <= i < s.len() {
            seq![s.subrange(0, i)] + split_on(s.subrange(i + 1, s.len() as int), sep)
        } else {
            seq![s]
        },
    }
}

/// Splitting a text that begins with a separator-free piece and a
/// separator yields that piece and then the split of the rest.
pub proof fn lemma_split_on_prefix(a: Seq<char>, rest: Seq<char>, sep: char)
    requires
        forall|j: int| 0 <= j < a.len() ==> a[j] != sep,
    ensures
        split_on(a + seq![sep] + rest, sep) == seq![a] + split_on(rest, sep),
{
    let t = a + seq![sep] + rest;
    assert forall|j: int| 0 <= j < a.len() implies t[j] != sep by {
        assert(t[j] == a[j]);
    }
    assert(t[a.len() as int] == sep);
    lemma_find_char_at(t, sep, a.len() as int);
    assert(t.subrange(0, a.len() as int) =~= a);
    assert(t.subrange(a.len() as int + 1, t.len() as int) =~= rest);
    assert(split_on(t, sep) =~= seq![a] + split_on(rest, sep));
}

/// The key and value of a line, split at the first `=` and trimmed;
/// `None` when the line holds no `=`.
pub open spec fn kv_of(line: Seq<char>) -> Option<(Seq<char>, Seq<char>)> {
    match find_char(line, '=') {
        None => None,
        Some(i) => Some(
            (trimmed(line.subrange(0, i)), trimmed(line.subrange(i + 1, line.len() as int))),
        ),
    }
}

/// The value stored under `key`, the last occurrence winning.
pub open spec fn lookup_key(lines: Seq<Seq<char>>, key: Seq<char>) -> Option<Seq<char>>
    decreases lines.len(),
{
    if lines.len() == 0 {
        None
    } else {
        match kv_of(lines.last()) {
            Some(kv) => if kv.0 == key {
                Some(kv.1)
            } else {
                lookup_key(lines.drop_last(), key)
            },
            None => lookup_key(lines.drop_last(), key),
        }
    }
}

/// The index of the first occurrence of `c` in `s`, or `None`.
pub(crate) fn find_char_exec(s: &str, c: char) -> (r: Option<usize>)
    ensures
        match r {
            Some(p) => p < s@.len() && find_char(s@, c) == Some(p as int),
            None => find_char(s@, c) is None,
        },
{
    let n = s.unicode_len();
    let mut i: usize = 0;
    while i < n
        invariant
            n == s@.len(),
            0 <= i <= n,
            forall|j: int| 0 <= j < i ==> s@[j] != c,
        decreases n - i,
    {
        if s.get_char(i) == c {
            proof {
                lemma_find_char_at(s@, c, i as int);
            }
            return Some(i);
        }
        i = i + 1;
    }
    proof {
        lemma_find_char_at(s@, c, n as int);
    }
    None
}

/// `s` divided at every occurrence of `sep`.
pub(crate) fn split_str(s: &str, sep: char) -> (r: Vec<String>)
    ensures
        r@.map_values(|l: String| l@) == split_on(s@, sep),
{
    let n = s.unicode_len();
    let mut r: Vec<String> = Vec::new();
    let mut seg_start: usize = 0;
    let mut i: usize = 0;
    proof {
        assert(s@.subrange(0, n as int) =~= s@);
        assert(r@.map_values(|l: String| l@) =~= Seq::<Seq<char>>::empty());
    }
    while i < n
        invariant
            n == s@.len(),
            0 <= seg_start <= i <= n,
            forall|j: int| seg_start <= j < i ==> s@[j] != sep,
            split_on(s@, sep) =~= r@.map_values(|l: String| l@) + split_on(
                s@.subrange(seg_start as int, n as int),
                sep,
            ),
        decreases n - i,
    {
        if s.get_char(i) == sep {
            let seg = s.substring_char(seg_start, i).to_owned();
            proof {
                let a = s@.subrange(seg_start as int, i as int);
                let rest = s@.subrange(i as int + 1, n as int);
                assert(a + seq![sep] + rest =~= s@.subrange(seg_start as int, n as int));
                lemma_split_on_prefix(a, rest, sep);
                assert((r@ + seq![seg]).map_values(|l: String| l@) =~= r@.map_values(
                    |l: String| l@,
                ) + seq![a]);
            }
            r.push(seg);
            seg_start = i + 1;
        }
        i = i + 1;
    }
    let last = s.substring_char(seg_start, n).to_owned();
    proof {
        let rem = s@.subrange(seg_start as int, n as int);
        lemma_find_char_at(rem, sep, rem.len() as int);
        assert(split_on(rem, sep) == seq![rem]);
        assert((r@ + seq![last]).map_values(|l: String| l@) =~= r@.map_values(|l: String| l@)
            + seq![rem]);
    }
    r.push(last);
    r
}

/// What reading a checkpoint text yields: the four required keys looked
/// up over the lines, `None` when one is missing or the index does not
/// parse as a `usize`.
pub open spec fn spec_parse_checkpoint(s: Seq<char>) -> Option<CheckpointView> {
    let lines = split_on(s, '\n');
    match (
        lookup_key(lines, "next_index"@),
        lookup_key(lines, "targets"@),
        lookup_key(lines, "output"@),
        lookup_key(lines, "mode"@),
    ) {
        (Some(ni), Some(tp), Some(op), Some(md)) => if ni.len() > 0 && all_digits(ni) && dec_val(
            ni,
        ) <= usize::MAX {
            Some(
                CheckpointView {
                    next_index: dec_val(ni),
                    targets_path: tp,
                    output_path: op,
                    mode: md,
                },
            )
        } else {
            None
        },
        _ => None,
    }
}

impl Checkpoint {
    /// Reads a checkpoint from its serialised text.  Keys and values are
    /// trimmed, unrecognised keys are ignored, a repeated key keeps its
    /// last value; a missing required key, or a `next_index` that is not
    /// a plain decimal number fitting a `usize`, yields `None`.
    pub fn from_str(data: &str) -> (r: Option<Checkpoint>)
        ensures
            r is Some <==> spec_parse_checkpoint(data@) is Some,
            r is Some ==> r.unwrap()@ == spec_parse_checkpoint(data@).unwrap(),
    {
        let lines = split_str(data, '\n');
        let ghost lv = split_on(data@, '\n');
        let mut ni: Option<String> = None;
        let mut tp: Option<String> = None;
        let mut op: Option<String> = None;
        let mut md: Option<String> = None;
        let mut i: usize = 0;
        proof {
            assert(lv.subrange(0, 0) =~= Seq::<Seq<char>>::empty());
        }
        while i < lines.len()
            invariant
                lines@.map_values(|l: String| l@) == lv,
                0 <= i <= lines@.len(),
                opt_view(ni) == lookup_key(lv.subrange(0, i as int), "next_index"@),
                opt_view(tp) == lookup_key(lv.subrange(0, i as int), "targets"@),
                opt_view(op) == lookup_key(lv.subrange(0, i as int), "output"@),
                opt_view(md) == lookup_key(lv.subrange(0, i as int), "mode"@),
            decreases lines@.len() - i,
        {
            let line = &lines[i];
            let ghost lseq = lv[i as int];
            proof {
                reveal_strlit("next_index");
                reveal_strlit("targets");
                reveal_strlit("output");
                reveal_strlit("mode");
                assert(lv.subrange(0, i + 1).last() == lseq);
                assert(lv.subrange(0, i + 1).drop_last() =~= lv.subrange(0, i as int));
            }
            match find_char_exec(line.as_str(), '=') {
                Some(p) => {
                    let llen = line.as_str().unicode_len();
                    let key = str_trim(line.as_str().substring_char(0, p));
                    let value = str_trim(line.as_str().substring_char(p + 1, llen));
                    proof {
                        assert(kv_of(lseq) == Some((key@, value@)));
                    }
                    if str_eq(key.as_str(), "next_index") {
                        ni = Some(value);
                    } else if str_eq(key.as_str(), "targets") {
                        tp = Some(value);
                    } else if str_eq(key.as_str(), "output") {
                        op = Some(value);
                    } else if str_eq(key.as_str(), "mode") {
                        md = Some(value);
                    }
                },
                None => {
                    proof {
                        assert(kv_of(lseq) is None);
                    }
                },
            }
            proof {
                // The four key literals are pairwise distinct: their
                // lengths settle it.
                assert("next_index"@.len() == 10);
                assert("targets"@.len() == 7);
                assert("output"@.len() == 6);
                assert("mode"@.len() == 4);
            }
            i = i + 1;
        }
        proof {
            assert(lv.subrange(0, lines@.len() as int) =~= lv);
        }
        match (ni, tp, op, md) {
            (Some(ni), Some(tp), Some(op), Some(md)) => {
                match parse_usize(ni.as_str()) {
                    Some(v) => Some(
                        Checkpoint {
                            next_index: v,
                            targets_path: tp,
                            output_path: op,
                            mode: md,
                        },
                    ),
                    None => None,
                }
            },
            _ => None,
        }
    }
}

/// A field value survives the trip through the checkpoint file: it spans
/// no second line and carries no surrounding whitespace of its own.
pub open spec fn field_ok(s: Seq<char>) -> bool {
    trimmed(s) == s && forall|j: int| 0 <= j < s.len() ==> s[j] != '\n'
}

/// Writing a checkpoint and reading the text back yields the same
/// checkpoint, for every record whose string fields are single-line and
/// trimmed.
pub proof fn lemma_checkpoint_roundtrip(c: CheckpointView)
    requires
        c.next_index <= usize::MAX,
        field_ok(c.targets_path),
        field_ok(c.output_path),
        field_ok(c.mode),
    ensures
        spec_parse_checkpoint(checkpoint_text(c)) == Some(c),
{
    reveal_strlit("next_index=");
    reveal_strlit("targets=");
    reveal_strlit("output=");
    reveal_strlit("mode=");
    reveal_strlit("next_index");
    reveal_strlit("targets");
    reveal_strlit("output");
    reveal_strlit("mode");
    reveal_strlit("\n");
    assert("next_index="@.len() == 11);
    assert("targets="@.len() == 8);
    assert("output="@.len() == 7);
    assert("mode="@.len() == 5);
    assert("next_index"@.len() == 10);
    assert("targets"@.len() == 7);
    assert("output"@.len() == 6);
    assert("mode"@.len() == 4);
    lemma_dec_rep_digits(c.next_index);
    lemma_dec_val_of_rep(c.next_index);
    let d = dec_rep(c.next_index);
    let l1 = "next_index="@ + d;
    let l2 = "targets="@ + c.targets_path;
    let l3 = "output="@ + c.output_path;
    let l4 = "mode="@ + c.mode;
    let empty = Seq::<char>::empty();
    let text = checkpoint_text(c);

    // The text splits into the four lines and a final empty piece.
    assert(forall|j: int| 0 <= j < l1.len() ==> l1[j] != '\n');
    assert(forall|j: int| 0 <= j < l2.len() ==> l2[j] != '\n');
    assert(forall|j: int| 0 <= j < l3.len() ==> l3[j] != '\n');
    assert(forall|j: int| 0 <= j < l4.len() ==> l4[j] != '\n');
    let t4 = l4 + seq!['\n'] + empty;
    let t3 = l3 + seq!['\n'] + t4;
    let t2 = l2 + seq!['\n'] + t3;
    let t1 = l1 + seq!['\n'] + t2;
    assert(text =~= t1);
    lemma_find_char_at(empty, '\n', 0);
    lemma_split_on_prefix(l4, empty, '\n');
    lemma_split_on_prefix(l3, t4, '\n');
    lemma_split_on_prefix(l2, t3, '\n');
    lemma_split_on_prefix(l1, t2, '\n');
    let ls = seq![l1, l2, l3, l4, empty];
    assert(split_on(text, '\n') =~= ls);

    // Each line divides at its first `=` into the key and the field.
    assert(forall|j: int| 0 <= j < 10 ==> l1[j] != '=');
    assert(l1[10] == '=');
    lemma_find_char_at(l1, '=', 10);
    assert(l1.subrange(0, 10) =~= "next_index"@);
    assert(l1.subrange(11, l1.len() as int) =~= d);
    lemma_digits_trim_stable(d);
    assert(trimmed("next_index"@) == "next_index"@);
    assert(kv_of(l1) == Some(("next_index"@, d)));

    assert(forall|j: int| 0 <= j < 7 ==> l2[j] != '=');
    assert(l2[7] == '=');
    lemma_find_char_at(l2, '=', 7);
    assert(l2.subrange(0, 7) =~= "targets"@);
    assert(l2.subrange(8, l2.len() as int) =~= c.targets_path);
    assert(trimmed("targets"@) == "targets"@);
    assert(kv_of(l2) == Some(("targets"@, c.targets_path)));

    assert(forall|j: int| 0 <= j < 6 ==> l3[j] != '=');
    assert(l3[6] == '=');
    lemma_find_char_at(l3, '=', 6);
    assert(l3.subrange(0, 6) =~= "output"@);
    assert(l3.subrange(7, l3.len() as int) =~= c.output_path);
    assert(trimmed("output"@) == "output"@);
    assert(kv_of(l3) == Some(("output"@, c.output_path)));

    assert(forall|j: int| 0 <= j < 4 ==> l4[j] != '=');
    assert(l4[4] == '=');
    lemma_find_char_at(l4, '=', 4);
    assert(l4.subrange(0, 4) =~= "mode"@);
    assert(l4.subrange(5, l4.len() as int) =~= c.mode);
    assert(trimmed("mode"@) == "mode"@);
    assert(kv_of(l4) == Some(("mode"@, c.mode)));

    // Looking up each key walks the lines from the last.
    lemma_find_char_at(empty, '=', 0);
    assert(kv_of(empty) is None);
    assert(ls.last() == empty);
    assert(ls.drop_last() =~= seq![l1, l2, l3, l4]);
    assert(seq![l1, l2, l3, l4].drop_last() =~= seq![l1, l2, l3]);
    assert(seq![l1, l2, l3].drop_last() =~= seq![l1, l2]);
    assert(seq![l1, l2].drop_last() =~= seq![l1]);
    assert(seq![l1].drop_last() =~= Seq::<Seq<char>>::empty());
    let s4 = seq![l1, l2, l3, l4];
    let s3 = seq![l1, l2, l3];
    let s2 = seq![l1, l2];
    let s1 = seq![l1];
    assert(lookup_key(s4, "mode"@) == Some(c.mode));
    assert(lookup_key(ls, "mode"@) == Some(c.mode));
    assert(lookup_key(s3, "output"@) == Some(c.output_path));
    assert(lookup_key(s4, "output"@) == Some(c.output_path));
    assert(lookup_key(ls, "output"@) == Some(c.output_path));
    assert(lookup_key(s2, "targets"@) == Some(c.targets_path));
    assert(lookup_key(s3, "targets"@) == Some(c.targets_path));
    assert(lookup_key(s4, "targets"@) == Some(c.targets_path));
    assert(lookup_key(ls, "targets"@) == Some(c.targets_path));
    assert(lookup_key(s1, "next_index"@) == Some(d));
    assert(lookup_key(s2, "next_index"@) == Some(d));
    assert(lookup_key(s3, "next_index"@) == Some(d));
    assert(lookup_key(s4, "next_index"@) == Some(d));
    assert(lookup_key(ls, "next_index"@) == Some(d));

    assert(spec_parse_checkpoint(text) == Some(c));
}

/// The location of the checkpoint file when no other is chosen.
pub fn default_checkpoint_path() -> (r: String)
    ensures
        r@ == "checkpoint"@,
{
    let s: &str = "checkpoint";
    s.to_owned()
}

} // verus!
