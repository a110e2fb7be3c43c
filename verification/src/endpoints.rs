pub mod export;
pub mod search;

use vstd::prelude::*;

verus! {

/// Used to set the order for sorting query results.
///
/// A bare field name converts to a descending sort (`From<&str>` and
/// `From<String>` below), which matches the relevancy-sorted default the
/// server applies; ascending order is requested with [`Sort::asc`].
#[derive(Debug, Clone)]
pub enum Sort {
    Asc(String),
    Desc(String),
}

/// The mathematical content of a [`Sort`]: the field name as a sequence of
/// characters, plus the direction.
pub enum SortView {
    Asc(Seq<char>),
    Desc(Seq<char>),
}

impl View for Sort {
    type V = SortView;

    open spec fn view(&self) -> SortView {
        match self {
            Sort::Asc(f) => SortView::Asc(f@),
            Sort::Desc(f) => SortView::Desc(f@),
        }
    }
}

impl SortView {
    /// The wire syntax of one sort key: `"<field> asc"` or `"<field> desc"`.
    pub open spec fn rendered(self) -> Seq<char> {
        match self {
            SortView::Asc(f) => f + " asc"@,
            SortView::Desc(f) => f + " desc"@,
        }
    }
}

impl Sort {
    /// Build an ascending sort on a field.
    pub fn asc(field: &str) -> (r: Self)
        ensures
            r@ == SortView::Asc(field@),
    {
        Sort::Asc(field.to_owned())
    }

    /// Build a descending sort on a field.
    pub fn desc(field: &str) -> (r: Self)
        ensures
            r@ == SortView::Desc(field@),
    {
        Sort::Desc(field.to_owned())
    }

    /// Render this sort key in the wire syntax.
    pub fn to_string(&self) -> (r: String)
        ensures
            r@ == self@.rendered(),
    {
        match self {
            Sort::Asc(f) => f.clone().concat(" asc"),
            Sort::Desc(f) => f.clone().concat(" desc"),
        }
    }
}

impl From<&str> for Sort {
    /// The weak conversion: a bare field name sorts descending.
    fn from(s: &str) -> (r: Self) {
        Sort::Desc(s.to_owned())
    }
}

impl vstd::std_specs::convert::FromSpecImpl<&str> for Sort {
    open spec fn obeys_from_spec() -> bool {
        false
    }

    open spec fn from_spec(v: &str) -> Sort {
        arbitrary()
    }
}

impl From<String> for Sort {
    /// The weak conversion: a bare field name sorts descending.
    fn from(s: String) -> (r: Self) {
        Sort::Desc(s)
    }
}

impl vstd::std_specs::convert::FromSpecImpl<String> for Sort {
    open spec fn obeys_from_spec() -> bool {
        false
    }

    open spec fn from_spec(v: String) -> Sort {
        arbitrary()
    }
}

/// The comma-join of a list of strings, with no separator before the first
/// entry: the shape shared by the `fl` and `sort` parameters.
pub open spec fn spec_join_comma(items: Seq<Seq<char>>) -> Seq<char>
    decreases items.len(),
{
    if items.len() == 0 {
        Seq::empty()
    } else if items.len() == 1 {
        items[0]
    } else {
        spec_join_comma(items.drop_last()) + seq![','] + items.last()
    }
}

proof fn lemma_join_comma_step(items: Seq<Seq<char>>, i: int)
    requires
        0 <= i < items.len(),
    ensures
        spec_join_comma(items.take(i + 1)) == if i == 0 {
            items[0]
        } else {
            spec_join_comma(items.take(i)) + seq![','] + items[i]
        },
{
    let pre = items.take(i + 1);
    if i == 0 {
        assert(pre.len() == 1);
        assert(pre[0] == items[0]);
    } else {
        assert(pre.drop_last() =~= items.take(i));
        assert(pre.last() == items[i]);
    }
}

/// Joins the strings with commas, exactly as [`spec_join_comma`] states.
pub(crate) fn comma_separated(items: &Vec<String>) -> (r: String)
    ensures
        r@ == spec_join_comma(items.deep_view()),
{
    let ghost dv = items.deep_view();
    let mut out = String::new();
    let mut i: usize = 0;
    proof {
        assert(dv.take(0) =~= Seq::<Seq<char>>::empty());
    }
    while i < items.len()
        invariant
            i <= items.len(),
            dv == items.deep_view(),
            dv.len() == items@.len(),
            forall|j: int| 0 <= j < dv.len() ==> dv[j] == #[trigger] items@[j]@,
            out@ == spec_join_comma(dv.take(i as int)),
        decreases items.len() - i,
    {
        if i > 0 {
            out.append(",");
            proof {
                reveal_strlit(",");
                assert(","@ =~= seq![',']);
            }
        }
        out.append(items[i].as_str());
        proof {
            lemma_join_comma_step(dv, i as int);
            if i == 0 {
                assert(out@ =~= dv[0]);
            }
        }
        i += 1;
    }
    proof {
        assert(dv.take(dv.len() as int) =~= dv);
    }
    out
}

/// The decimal digit for a value below ten.
pub open spec fn spec_digit(d: nat) -> char {
    if d == 0 {
        '0'
    } else if d == 1 {
        '1'
    } else if d == 2 {
        '2'
    } else if d == 3 {
        '3'
    } else if d == 4 {
        '4'
    } else if d == 5 {
        '5'
    } else if d == 6 {
        '6'
    } else if d == 7 {
        '7'
    } else if d == 8 {
        '8'
    } else {
        '9'
    }
}

/// The decimal rendering of an unsigned number, most significant digit
/// first and without leading zeros (a lone zero renders as `"0"`).
pub open spec fn spec_u64_dec(n: nat) -> Seq<char>
    decreases n,
{
    if n < 10 {
        seq![spec_digit(n)]
    } else {
        spec_u64_dec(n / 10).push(spec_digit(n % 10))
    }
}

fn digit_str(d: u64) -> (r: &'static str)
    requires
        d < 10,
    ensures
        r@ == seq![spec_digit(d as nat)],
{
    let s: &'static str = match d {
        0 => "0",
        1 => "1",
        2 => "2",
        3 => "3",
        4 => "4",
        5 => "5",
        6 => "6",
        7 => "7",
        8 => "8",
        _ => "9",
    };
    proof {
        reveal_strlit("0");
        reveal_strlit("1");
        reveal_strlit("2");
        reveal_strlit("3");
        reveal_strlit("4");
        reveal_strlit("5");
        reveal_strlit("6");
        reveal_strlit("7");
        reveal_strlit("8");
        reveal_strlit("9");
        assert(s@ =~= seq![spec_digit(d as nat)]);
    }
    s
}

/// Renders a number in decimal, exactly as [`spec_u64_dec`] states.
pub(crate) fn u64_to_dec(n: u64) -> (r: String)
    ensures
        r@ == spec_u64_dec(n as nat),
    decreases n,
{
    if n < 10 {
        let r = String::from_str(digit_str(n));
        r
    } else {
        let mut r = u64_to_dec(n / 10);
        r.append(digit_str(n % 10));
        proof {
            assert(r@ =~= spec_u64_dec((n / 10) as nat).push(spec_digit((n % 10) as nat)));
        }
        r
    }
}

} // verus!
