//! Text of a device array: its elements laid out by shape, abbreviated when
//! large.
use vstd::prelude::*;
use crate::rocarray::shape_spec::prod;
use crate::text::{decimal, decimal_string};

verus! {

/// `items` separated by `", "`.
pub open spec fn joined(items: Seq<Seq<char>>) -> Seq<char>
    decreases items.len(),
{
    if items.len() == 0 {
        Seq::empty()
    } else if items.len() == 1 {
        items[0]
    } else {
        joined(items.drop_last()) + ", "@ + items.last()
    }
}

/// `items` as a bracketed list: `[a, b, c]`.
pub open spec fn list_text(items: Seq<Seq<char>>) -> Seq<char> {
    "["@ + joined(items) + "]"@
}

/// Texts of numbers in decimal.
pub open spec fn decimals(values: Seq<usize>) -> Seq<Seq<char>> {
    Seq::new(values.len(), |i: int| decimal(values[i] as nat))
}

/// Smaller of two numbers.
pub open spec fn min_usize(a: usize, b: usize) -> usize {
    if a <= b { a } else { b }
}

/// One row of a matrix: at most five entries, then `, ...` if there are more.
pub open spec fn row_text(items: Seq<Seq<char>>, cols: usize, i: int) -> Seq<char> {
    "  ["@ + joined(Seq::new(min_usize(cols, 5) as nat, |j: int| items[i * cols + j]))
        + (if cols > 5 { ", ..."@ } else { Seq::empty() }) + "]\n"@
}

/// The first `k` rows of a matrix.
pub open spec fn rows_text(items: Seq<Seq<char>>, cols: usize, k: int) -> Seq<char>
    decreases k,
{
    if k <= 0 {
        Seq::empty()
    } else {
        rows_text(items, cols, k - 1) + row_text(items, cols, k - 1)
    }
}

/// Text of an array of shape `dims` whose elements' texts are `items`, in
/// row-major order; without elements (they could not be read) only the shape
/// is shown.
pub open spec fn array_text(dims: Seq<usize>, items: Option<Seq<Seq<char>>>) -> Seq<char> {
    match items {
        Some(items) if dims.len() == 1 => {
            if items.len() <= 10 {
                "ROCArray"@ + list_text(items)
            } else {
                "ROCArray["@ + list_text(items.take(3)) + ", …, "@ + list_text(
                    items.skip(items.len() - 3),
                ) + "] (len="@ + decimal(items.len()) + ")"@
            }
        },
        Some(items) if dims.len() == 2 => {
            "ROCArray2D("@ + decimal(dims[0] as nat) + "x"@ + decimal(dims[1] as nat) + ")[\n"@
                + rows_text(items, dims[1], min_usize(dims[0], 5) as int) + (if dims[0] > 5 {
                "  ...\n"@
            } else {
                Seq::empty()
            }) + "]"@
        },
        _ => "ROCArray"@ + decimal(dims.len()) + "D"@ + list_text(decimals(dims)),
    }
}

/// `items[lo..hi]` separated by `", "`.
fn join_range(items: &Vec<String>, lo: usize, hi: usize) -> (r: String)
    requires
        lo <= hi <= items@.len(),
    ensures
        r@ == joined(items@.subrange(lo as int, hi as int).map_values(|s: String| s@)),
{
    let mut out = String::new();
    let mut k = lo;
    let ghost texts = items@.map_values(|s: String| s@);
    assert(texts.subrange(lo as int, lo as int) =~= Seq::<Seq<char>>::empty());
    while k < hi
        invariant
            lo <= k <= hi <= items@.len(),
            texts == items@.map_values(|s: String| s@),
            out@ == joined(texts.subrange(lo as int, k as int)),
        decreases hi - k,
    {
        let ghost before = texts.subrange(lo as int, k as int);
        assert(texts.subrange(lo as int, k + 1).drop_last() =~= before);
        if k > lo {
            out = out.concat(", ");
        }
        out = out.concat(items[k].as_str());
        k += 1;
        if k - 1 == lo {
            assert(texts.subrange(lo as int, k as int) =~= seq![items@[lo as int]@]);
        }
    }
    assert(items@.subrange(lo as int, hi as int).map_values(|s: String| s@) =~= texts.subrange(
        lo as int,
        hi as int,
    ));
    out
}

/// Texts of the strings.
pub open spec fn texts(items: Seq<String>) -> Seq<Seq<char>> {
    items.map_values(|s: String| s@)
}

/// `items[lo..hi]` as a bracketed list.
fn list_range(items: &Vec<String>, lo: usize, hi: usize) -> (r: String)
    requires
        lo <= hi <= items@.len(),
    ensures
        r@ == list_text(texts(items@).subrange(lo as int, hi as int)),
{
    let inner = join_range(items, lo, hi);
    assert(items@.subrange(lo as int, hi as int).map_values(|s: String| s@) =~= texts(
        items@,
    ).subrange(lo as int, hi as int));
    let out = String::from_str("[");
    let out = out.concat(inner.as_str());
    out.concat("]")
}

/// Row `i` of a matrix with `cols` columns whose elements are `items`.
fn row_string(items: &Vec<String>, cols: usize, i: usize, rows: usize) -> (r: String)
    requires
        i < rows,
        items@.len() == rows * cols,
    ensures
        r@ == row_text(texts(items@), cols, i as int),
{
    let total = items.len();
    let shown = if cols <= 5 { cols } else { 5 };
    assert(i * cols + shown <= rows * cols) by (nonlinear_arith)
        requires i < rows, shown <= cols;
    let start = i * cols;
    let inner = join_range(items, start, start + shown);
    assert(items@.subrange(start as int, start + shown).map_values(|s: String| s@) =~= Seq::new(
        min_usize(cols, 5) as nat,
        |j: int| texts(items@)[i * cols + j],
    ));
    let out = String::from_str("  [");
    let out = out.concat(inner.as_str());
    let out = if cols > 5 {
        out.concat(", ...")
    } else {
        out
    };
    out.concat("]\n")
}

/// Text of an array of shape `dims` whose elements, in row-major order, have
/// the texts `items`; `None` when the elements could not be read.
pub fn format_array(dims: &[usize], items: Option<Vec<String>>) -> (r: String)
    requires
        items matches Some(v) ==> v@.len() == prod(dims@),
    ensures
        r@ == array_text(
            dims@,
            match items {
                Some(v) => Some(texts(v@)),
                None => None,
            },
        ),
{
    match items {
        Some(v) if dims.len() == 1 => {
            let n = v.len();
            if n <= 10 {
                let list = list_range(&v, 0, n);
                assert(texts(v@).subrange(0, n as int) =~= texts(v@));
                String::from_str("ROCArray").concat(list.as_str())
            } else {
                let head = list_range(&v, 0, 3);
                let tail = list_range(&v, n - 3, n);
                assert(texts(v@).subrange(0, 3) =~= texts(v@).take(3));
                assert(texts(v@).subrange(n - 3, n as int) =~= texts(v@).skip(n - 3));
                let len = decimal_string(n as u64);
                let out = String::from_str("ROCArray[");
                let out = out.concat(head.as_str());
                let out = out.concat(", …, ");
                let out = out.concat(tail.as_str());
                let out = out.concat("] (len=");
                let out = out.concat(len.as_str());
                out.concat(")")
            }
        },
        Some(v) if dims.len() == 2 => {
            let rows = dims[0];
            let cols = dims[1];
            proof {
                reveal_with_fuel(prod, 3);
                assert(dims@.drop_first().drop_first() =~= Seq::<usize>::empty());
                assert(v@.len() == rows * cols);
            }
            let r = decimal_string(rows as u64);
            let c = decimal_string(cols as u64);
            let out = String::from_str("ROCArray2D(");
            let out = out.concat(r.as_str());
            let out = out.concat("x");
            let out = out.concat(c.as_str());
            let mut out = out.concat(")[\n");
            let shown = if rows <= 5 { rows } else { 5 };
            let ghost header = out@;
            let mut i: usize = 0;
            while i < shown
                invariant
                    i <= shown,
                    shown == min_usize(rows, 5),
                    shown <= rows,
                    v@.len() == rows * cols,
                    out@ == header + rows_text(texts(v@), cols, i as int),
                decreases shown - i,
            {
                let row = row_string(&v, cols, i, rows);
                out = out.concat(row.as_str());
                i += 1;
            }
            let out = if rows > 5 {
                out.concat("  ...\n")
            } else {
                out
            };
            out.concat("]")
        },
        _ => {
            let mut parts: Vec<String> = Vec::new();
            let mut k: usize = 0;
            while k < dims.len()
                invariant
                    k <= dims@.len(),
                    parts@.len() == k,
                    texts(parts@) =~= decimals(dims@).take(k as int),
                decreases dims@.len() - k,
            {
                let ghost before = parts@;
                let text = decimal_string(dims[k] as u64);
                parts.push(text);
                assert(parts@ == before.push(text));
                assert(texts(parts@)[k as int] == decimals(dims@)[k as int]);
                assert forall|j: int| 0 <= j < k implies #[trigger] texts(parts@)[j] == texts(before)[j] by {
                    assert(parts@[j] == before[j]);
                }
                k += 1;
                assert(texts(parts@) =~= decimals(dims@).take(k as int));
            }
            let list = list_range(&parts, 0, parts.len());
            assert(texts(parts@).subrange(0, parts@.len() as int) =~= decimals(dims@));
            let nd = decimal_string(dims.len() as u64);
            let out = String::from_str("ROCArray");
            let out = out.concat(nd.as_str());
            let out = out.concat("D");
            out.concat(list.as_str())
        },
    }
}

} // verus!
