//! From the values of a file's tags to records: which tags a record cannot
//! do without, and how the values of a multi-valued tag are told apart.

use vstd::prelude::*;
use vstd::string::StrSliceExecFns;

verus! {

/// A tag that a record cannot do without.
#[derive(Clone, Copy, Debug, PartialEq, Eq, Structural)]
pub enum Tag {
    SOPInstanceUID,
    SeriesInstanceUID,
    StudyInstanceUID,
    StudyID,
    StudyDate,
    PatientID,
    PatientName,
    Modality,
    Rows,
    Columns,
    PixelRepresentation,
    PixelData,
}

/// Why the tags of a file do not make a record.
#[derive(Clone, Copy, Debug, PartialEq, Eq, Structural)]
pub enum RecordError {
    /// The file has no value for a tag that the record needs.
    Missing(Tag),
    /// The series is not one of computed tomography.
    NotCT,
    /// The bytes cannot be parsed as a DICOM file.
    Unreadable,
}

/// The character that separates the values of a multi-valued tag.
pub const VALUE_SEPARATOR: char = '\\';

/// The values that the first `n` characters of `text` hold: the pieces
/// between separators, in order. A separator ends a value and begins the
/// next, so a text of `k` separators holds `k + 1` values, of which any may
/// be empty.
pub open spec fn values_upto(text: Seq<char>, n: int) -> Seq<Seq<char>>
    decreases n,
{
    if n <= 0 {
        seq![Seq::empty()]
    } else if text[n - 1] == VALUE_SEPARATOR {
        values_upto(text, n - 1).push(Seq::empty())
    } else {
        let before = values_upto(text, n - 1);
        before.drop_last().push(before.last().push(text[n - 1]))
    }
}

/// The values of a multi-valued tag.
pub open spec fn values_of(text: Seq<char>) -> Seq<Seq<char>> {
    values_upto(text, text.len() as int)
}

/// There is always a value, the last one, and no value holds a separator.
pub proof fn lemma_values_upto(text: Seq<char>, n: int)
    requires
        0 <= n <= text.len(),
    ensures
        values_upto(text, n).len() >= 1,
        forall|k: int, j: int|
            0 <= k < values_upto(text, n).len() && 0 <= j < values_upto(text, n)[k].len()
                ==> #[trigger] values_upto(text, n)[k][j] != VALUE_SEPARATOR,
    decreases n,
{
    if n > 0 {
        lemma_values_upto(text, n - 1);
    }
}

/// The values written one after the other, with a separator between each
/// two.
pub open spec fn joined(values: Seq<Seq<char>>) -> Seq<char>
    decreases values.len(),
{
    if values.len() == 0 {
        Seq::empty()
    } else if values.len() == 1 {
        values[0]
    } else {
        joined(values.drop_last()).push(VALUE_SEPARATOR) + values.last()
    }
}

/// The values of a text, joined by separators, are the text.
pub proof fn lemma_values_join(text: Seq<char>, n: int)
    requires
        0 <= n <= text.len(),
    ensures
        joined(values_upto(text, n)) == text.take(n),
    decreases n,
{
    if n == 0 {
        assert(joined(values_upto(text, n)) =~= text.take(n));
    } else {
        lemma_values_join(text, n - 1);
        lemma_values_upto(text, n - 1);
        let before = values_upto(text, n - 1);
        let after = values_upto(text, n);
        if text[n - 1] == VALUE_SEPARATOR {
            assert(after.drop_last() =~= before);
            assert(joined(after) =~= text.take(n));
        } else {
            let grown = before.last().push(text[n - 1]);
            if before.len() == 1 {
                assert(after =~= seq![grown]);
                assert(joined(after) =~= text.take(n));
            } else {
                assert(after.drop_last() =~= before.drop_last());
                assert(after.last() == grown);
                assert(joined(after) =~= joined(before).push(text[n - 1]));
                assert(joined(after) =~= text.take(n));
            }
        }
    }
}

/// Two values, where exactly two are given.
pub open spec fn pair_of<T>(values: Option<Seq<T>>) -> Option<(T, T)> {
    match values {
        Some(v) => if v.len() == 2 {
            Some((v[0], v[1]))
        } else {
            None
        },
        None => None,
    }
}

/// Three values, where exactly three are given.
pub open spec fn triple_of<T>(values: Option<Seq<T>>) -> Option<(T, T, T)> {
    match values {
        Some(v) => if v.len() == 3 {
            Some((v[0], v[1], v[2]))
        } else {
            None
        },
        None => None,
    }
}

/// Six values, where exactly six are given.
pub open spec fn sextuple_of<T>(values: Option<Seq<T>>) -> Option<(T, T, T, T, T, T)> {
    match values {
        Some(v) => if v.len() == 6 {
            Some((v[0], v[1], v[2], v[3], v[4], v[5]))
        } else {
            None
        },
        None => None,
    }
}

/// The values of a sequence of optional values that are present, in order.
pub open spec fn present<T>(values: Seq<Option<T>>) -> Seq<T>
    decreases values.len(),
{
    if values.len() == 0 {
        Seq::empty()
    } else if values.last() is Some {
        present(values.drop_last()).push(values.last().unwrap())
    } else {
        present(values.drop_last())
    }
}

/// The view of an optional text.
pub open spec fn optional_text(text: Option<String>) -> Option<Seq<char>> {
    match text {
        Some(t) => Some(t@),
        None => None,
    }
}

/// The view of optional values.
pub open spec fn optional_view<T>(values: Option<Vec<T>>) -> Option<Seq<T>> {
    match values {
        Some(v) => Some(v@),
        None => None,
    }
}

/// The views of the pieces of a text.
pub open spec fn piece_views(pieces: Seq<&str>) -> Seq<Seq<char>> {
    Seq::new(pieces.len(), |k: int| pieces[k]@)
}

/// The values of a multi-valued tag: the pieces of `text` between
/// separators, in order.
pub fn split_values<'a>(text: &'a str) -> (r: Vec<&'a str>)
    ensures
        piece_views(r@) == values_of(text@),
{
    let n = text.unicode_len();
    let mut out: Vec<&'a str> = Vec::new();
    let mut start: usize = 0;
    let mut i: usize = 0;
    assert(text@.subrange(0, 0) =~= Seq::<char>::empty());
    assert(values_upto(text@, 0) =~= piece_views(out@).push(text@.subrange(0, 0)));
    while i < n
        invariant
            n == text@.len(),
            start <= i <= n,
            values_upto(text@, i as int) == piece_views(out@).push(
                text@.subrange(start as int, i as int),
            ),
        decreases n - i,
    {
        let ghost before = values_upto(text@, i as int);
        let ghost done = piece_views(out@);
        if text.get_char(i) == VALUE_SEPARATOR {
            let piece = text.substring_char(start, i);
            out.push(piece);
            start = i + 1;
            proof {
                assert(piece_views(out@) =~= before);
                assert(text@.subrange(start as int, i + 1) =~= Seq::<char>::empty());
            }
        } else {
            proof {
                assert(before.drop_last() =~= done);
                assert(text@.subrange(start as int, i + 1) =~= text@.subrange(
                    start as int,
                    i as int,
                ).push(text@[i as int]));
            }
        }
        i += 1;
    }
    let ghost done = piece_views(out@);
    let piece = text.substring_char(start, n);
    out.push(piece);
    assert(piece_views(out@) =~= done.push(text@.subrange(start as int, n as int)));
    out
}

/// Two values, where exactly two are given.
pub fn pair<T: Copy>(values: &Option<Vec<T>>) -> (r: Option<(T, T)>)
    ensures
        r == pair_of(optional_view(*values)),
{
    match values {
        Some(v) => if v.len() == 2 {
            Some((v[0], v[1]))
        } else {
            None
        },
        None => None,
    }
}

/// Three values, where exactly three are given.
pub fn triple<T: Copy>(values: &Option<Vec<T>>) -> (r: Option<(T, T, T)>)
    ensures
        r == triple_of(optional_view(*values)),
{
    match values {
        Some(v) => if v.len() == 3 {
            Some((v[0], v[1], v[2]))
        } else {
            None
        },
        None => None,
    }
}

/// Six values, where exactly six are given.
pub fn sextuple<T: Copy>(values: &Option<Vec<T>>) -> (r: Option<(T, T, T, T, T, T)>)
    ensures
        r == sextuple_of(optional_view(*values)),
{
    match values {
        Some(v) => if v.len() == 6 {
            Some((v[0], v[1], v[2], v[3], v[4], v[5]))
        } else {
            None
        },
        None => None,
    }
}

} // verus!
