//! A model of a columnar store's query response — a schema of field names
//! and rows of rendered values — and helpers a delivery check needs:
//! turning rows into named records, and deriving a fresh table name.

use vstd::prelude::*;

verus! {

/// A query response: the field names of the result schema, and one list
/// of rendered values per row, in schema order.
pub struct DatabendHttpResponse {
    pub schema: Vec<String>,
    pub data: Vec<Vec<String>>,
}

/// Pair every row's values with the schema's field names: one record per
/// row, fields in schema order.
pub fn response_to_map(resp: &DatabendHttpResponse) -> (r: Vec<Vec<(String, String)>>)
    requires
        forall|i: int|
            0 <= i < resp.data@.len() ==> (#[trigger] resp.data@[i])@.len()
                >= resp.schema@.len(),
    ensures
        r@.len() == resp.data@.len(),
        forall|i: int| 0 <= i < r@.len() ==> (#[trigger] r@[i])@.len() == resp.schema@.len(),
        forall|i: int, j: int|
            0 <= i < r@.len() && 0 <= j < resp.schema@.len() ==> (#[trigger] r@[i]@[j]).0@
                == resp.schema@[j]@ && r@[i]@[j].1@ == resp.data@[i]@[j]@,
{
    let mut result: Vec<Vec<(String, String)>> = Vec::new();
    let mut i: usize = 0;
    while i < resp.data.len()
        invariant
            i <= resp.data@.len(),
            result@.len() == i,
            forall|k: int|
                0 <= k < resp.data@.len() ==> (#[trigger] resp.data@[k])@.len()
                    >= resp.schema@.len(),
            forall|k: int|
                0 <= k < i ==> (#[trigger] result@[k])@.len() == resp.schema@.len(),
            forall|k: int, j: int|
                0 <= k < i && 0 <= j < resp.schema@.len() ==> (#[trigger] result@[k]@[j]).0@
                    == resp.schema@[j]@ && result@[k]@[j].1@ == resp.data@[k]@[j]@,
        decreases resp.data@.len() - i,
    {
        let row = &resp.data[i];
        let mut rec: Vec<(String, String)> = Vec::new();
        let mut j: usize = 0;
        while j < resp.schema.len()
            invariant
                j <= resp.schema@.len(),
                rec@.len() == j,
                row@.len() >= resp.schema@.len(),
                *row == resp.data@[i as int],
                i < resp.data@.len(),
                forall|jj: int|
                    0 <= jj < j ==> (#[trigger] rec@[jj]).0@ == resp.schema@[jj]@
                        && rec@[jj].1@ == resp.data@[i as int]@[jj]@,
            decreases resp.schema@.len() - j,
        {
            rec.push((resp.schema[j].clone(), row[j].clone()));
            j = j + 1;
        }
        result.push(rec);
        i = i + 1;
    }
    result
}

/// The lowercase form of one character, folding only the ASCII letters.
pub open spec fn lower_char(c: char) -> char {
    if 65 <= c as u32 && c as u32 <= 90 {
        (((c as u32) + 32) as u8) as char
    } else {
        c
    }
}

/// The ASCII-lowercase form of a character sequence.
pub open spec fn lower_seq(s: Seq<char>) -> Seq<char> {
    s.map_values(|c: char| lower_char(c))
}

/// Relies on String::push: appends exactly the one character.
#[verifier::external_body]
fn push_char(s: &mut String, c: char)
    ensures
        final(s)@ == old(s)@ + seq![c],
{
    s.push(c);
}

/// A fresh table name for a delivery check: `test_` followed by the given
/// random part, ASCII-lowercased.
pub fn gen_table(random_part: &str) -> (r: String)
    ensures
        r@ == "test_"@ + lower_seq(random_part@),
{
    let mut s = "test_".to_owned();
    let n = random_part.unicode_len();
    let mut i: usize = 0;
    proof {
        assert(s@ =~= "test_"@ + lower_seq(random_part@.take(0)));
    }
    while i < n
        invariant
            i <= n,
            n == random_part@.len(),
            s@ == "test_"@ + lower_seq(random_part@.take(i as int)),
        decreases n - i,
    {
        let c = random_part.get_char(i);
        let u = c as u32;
        let lc: char = if u >= 65 && u <= 90 {
            ((u + 32) as u8) as char
        } else {
            c
        };
        push_char(&mut s, lc);
        proof {
            assert(lc == lower_char(random_part@[i as int]));
            assert(lower_seq(random_part@.take(i + 1)) =~= lower_seq(
                random_part@.take(i as int),
            ).push(lower_char(random_part@[i as int])));
            assert(s@ =~= "test_"@ + lower_seq(random_part@.take(i + 1)));
        }
        i = i + 1;
    }
    proof {
        assert(random_part@.take(n as int) =~= random_part@);
    }
    s
}

} // verus!
