//! Inline keyboards: buttons laid out in rows of a fixed width.
use vstd::prelude::*;
use crate::text::{decimal_seq, decimal_string};

verus! {

/// A button that sends `data` back to the bot when pressed.
#[derive(Clone, Debug)]
pub struct Button {
    pub text: String,
    pub data: String,
}

impl View for Button {
    type V = (Seq<char>, Seq<char>);

    open spec fn view(&self) -> (Seq<char>, Seq<char>) {
        (self.text@, self.data@)
    }
}

/// The texts of a sequence of buttons.
pub open spec fn buttons_view(bs: Seq<Button>) -> Seq<(Seq<char>, Seq<char>)> {
    bs.map_values(|b: Button| b@)
}

/// The texts of a keyboard, row by row.
pub open spec fn rows_view(rows: Seq<Vec<Button>>) -> Seq<Seq<(Seq<char>, Seq<char>)>> {
    rows.map_values(|r: Vec<Button>| buttons_view(r@))
}

/// The rows of a keyboard one after the other.
pub open spec fn flatten<T>(rows: Seq<Seq<T>>) -> Seq<T>
    decreases rows.len(),
{
    if rows.len() == 0 {
        Seq::<T>::empty()
    } else {
        flatten(rows.drop_last()) + rows.last()
    }
}

/// Rows of `width` buttons, the last one possibly shorter (what `slice::chunks` gives).
pub open spec fn chunked<T>(rows: Seq<Seq<T>>, width: nat) -> bool {
    &&& forall|i: int| 0 <= i < rows.len() ==> 0 < #[trigger] rows[i].len() <= width
    &&& forall|i: int| 0 <= i < rows.len() - 1 ==> #[trigger] rows[i].len() == width
}

proof fn lemma_buttons_view_push(bs: Seq<Button>, b: Button)
    ensures
        buttons_view(bs.push(b)) == buttons_view(bs).push(b@),
{
    assert(buttons_view(bs.push(b)) =~= buttons_view(bs).push(b@));
}

proof fn lemma_flatten_push<T>(rows: Seq<Seq<T>>, row: Seq<T>)
    ensures
        flatten(rows.push(row)) == flatten(rows) + row,
{
    assert(rows.push(row).drop_last() =~= rows);
}

/// Lays `buttons` out in rows of `width`, in order.
pub fn rows_of(buttons: Vec<Button>, width: usize) -> (rows: Vec<Vec<Button>>)
    requires
        width > 0,
    ensures
        flatten(rows_view(rows@)) == buttons_view(buttons@),
        chunked(rows_view(rows@), width as nat),
        rows@.len() * width >= buttons@.len(),
{
    let ghost all = buttons_view(buttons@);
    let mut rest = buttons;
    let mut rows: Vec<Vec<Button>> = Vec::new();
    let ghost mut done: nat = 0;
    assert(all.subrange(0, 0) =~= flatten(rows_view(rows@)));
    while rest.len() > 0
        invariant
            width > 0,
            done + rest@.len() == all.len(),
            buttons_view(rest@) == all.subrange(done as int, all.len() as int),
            flatten(rows_view(rows@)) == all.subrange(0, done as int),
            chunked(rows_view(rows@), width as nat),
            rest@.len() > 0 ==> forall|i: int|
                0 <= i < rows@.len() ==> (#[trigger] rows_view(rows@)[i]).len() == width,
            rest@.len() > 0 ==> rows@.len() * width == done,
            rows@.len() * width >= done,
        decreases rest@.len(),
    {
        let mut row: Vec<Button> = Vec::new();
        let ghost start = done;
        while row.len() < width && rest.len() > 0
            invariant
                width > 0,
                row@.len() <= width,
                start + row@.len() + rest@.len() == all.len(),
                buttons_view(rest@) == all.subrange((start + row@.len()) as int, all.len() as int),
                buttons_view(row@) == all.subrange(start as int, (start + row@.len()) as int),
            decreases rest@.len(),
        {
            let ghost before_rest = rest@;
            let ghost before_row = row@;
            let b = rest.remove(0);
            row.push(b);
            assert(buttons_view(rest@) =~= all.subrange((start + row@.len()) as int, all.len() as int)) by {
                assert(rest@ =~= before_rest.subrange(1, before_rest.len() as int));
                assert(buttons_view(rest@) =~= buttons_view(before_rest).subrange(
                    1,
                    before_rest.len() as int,
                ));
            }
            assert(buttons_view(row@) =~= all.subrange(start as int, (start + row@.len()) as int)) by {
                assert(row@ =~= before_row.push(b));
                assert(buttons_view(before_rest)[0] == b@);
            }
        }
        let ghost old_rows = rows@;
        let ghost row_len = row@.len();
        let ghost rv = buttons_view(row@);
        rows.push(row);
        proof {
            assert(rows_view(rows@) =~= rows_view(old_rows).push(rv));
            lemma_flatten_push(rows_view(old_rows), rv);
            assert(row_len > 0);
            assert(all.subrange(0, (start + row_len) as int) =~= all.subrange(0, start as int) + rv);
            done = start + row_len;
            assert((old_rows.len() + 1) * width == old_rows.len() * width + width) by (nonlinear_arith);
            if rest@.len() > 0 {
                assert(row_len == width);
            }
        }
    }
    assert(all.subrange(0, all.len() as int) =~= all);
    rows
}

/// The decimal notation of `n`, with a `-` where it is negative (what `Display`
/// writes for a signed integer).
pub open spec fn signed_decimal_seq(n: int) -> Seq<char> {
    if n < 0 {
        "-"@ + decimal_seq((-n) as nat)
    } else {
        decimal_seq(n as nat)
    }
}

/// The decimal notation of `n`.
pub fn signed_decimal_string(n: i32) -> (r: String)
    ensures
        r@ == signed_decimal_seq(n as int),
{
    if n < 0 {
        let magnitude: u64 = (0 - (n as i64)) as u64;
        let digits = decimal_string(magnitude);
        let mut r = String::from_str("-");
        r.append(digits.as_str());
        r
    } else {
        decimal_string(n as u64)
    }
}

/// One button per faculty, in the given order, labelled with its name and sending
/// its id; one button per row.
pub fn instituts_keyboard(faculties: Vec<(String, i32)>) -> (rows: Vec<Vec<Button>>)
    ensures
        flatten(rows_view(rows@)) == faculties@.map_values(
            |f: (String, i32)| (f.0@, signed_decimal_seq(f.1 as int)),
        ),
        chunked(rows_view(rows@), 1),
{
    let ghost want = faculties@.map_values(|f: (String, i32)| (f.0@, signed_decimal_seq(f.1 as int)));
    let mut buttons: Vec<Button> = Vec::new();
    let mut rest = faculties;
    let ghost all = rest@;
    let mut i: usize = 0;
    assert(all.len() == rest.len());
    while rest.len() > 0
        invariant
            all.len() <= usize::MAX,
            i + rest@.len() == all.len(),
            rest@ == all.subrange(i as int, all.len() as int),
            want == all.map_values(|f: (String, i32)| (f.0@, signed_decimal_seq(f.1 as int))),
            buttons_view(buttons@) == want.take(i as int),
        decreases rest@.len(),
    {
        let ghost before = rest@;
        let (name, id) = rest.remove(0);
        assert(rest@ =~= all.subrange(i + 1, all.len() as int));
        let ghost old_b = buttons@;
        let b = Button { text: name, data: signed_decimal_string(id) };
        buttons.push(b);
        assert(buttons_view(buttons@) =~= want.take(i + 1)) by {
            assert(buttons@ == old_b.push(b));
            lemma_buttons_view_push(old_b, b);
            assert(before[0] == all[i as int]);
            assert(want.take(i + 1) =~= want.take(i as int).push(want[i as int]));
        }
        i += 1;
    }
    assert(want.take(i as int) =~= want);
    rows_of(buttons, 1)
}

fn value_buttons(values: Vec<String>) -> (buttons: Vec<Button>)
    ensures
        buttons_view(buttons@) == values@.map_values(|v: String| (v@, v@)),
{
    let ghost want = values@.map_values(|v: String| (v@, v@));
    let mut buttons: Vec<Button> = Vec::new();
    let mut rest = values;
    let ghost all = rest@;
    let mut i: usize = 0;
    assert(all.len() == rest.len());
    while rest.len() > 0
        invariant
            all.len() <= usize::MAX,
            i + rest@.len() == all.len(),
            rest@ == all.subrange(i as int, all.len() as int),
            want == all.map_values(|v: String| (v@, v@)),
            buttons_view(buttons@) == want.take(i as int),
        decreases rest@.len(),
    {
        let ghost before = rest@;
        let v = rest.remove(0);
        assert(rest@ =~= all.subrange(i + 1, all.len() as int));
        let ghost old_b = buttons@;
        let b = Button { text: v.clone(), data: v };
        buttons.push(b);
        assert(buttons_view(buttons@) =~= want.take(i + 1)) by {
            assert(buttons@ == old_b.push(b));
            lemma_buttons_view_push(old_b, b);
            assert(before[0] == all[i as int]);
            assert(want.take(i + 1) =~= want.take(i as int).push(want[i as int]));
        }
        i += 1;
    }
    assert(want.take(i as int) =~= want);
    buttons
}

/// One button per course, labelled with it and sending it; two buttons per row.
pub fn courses_keyboard(courses: Vec<String>) -> (rows: Vec<Vec<Button>>)
    ensures
        flatten(rows_view(rows@)) == courses@.map_values(|v: String| (v@, v@)),
        chunked(rows_view(rows@), 2),
{
    rows_of(value_buttons(courses), 2)
}

/// One button per group, labelled with it and sending it; two buttons per row.
pub fn groups_keyboard(groups: Vec<String>) -> (rows: Vec<Vec<Button>>)
    ensures
        flatten(rows_view(rows@)) == groups@.map_values(|v: String| (v@, v@)),
        chunked(rows_view(rows@), 2),
{
    rows_of(value_buttons(groups), 2)
}

} // verus!
