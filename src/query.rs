//! SQL statement text and pagination arithmetic for list queries.

use vstd::prelude::*;

verus! {

/// The character for a decimal digit.
pub open spec fn digit_char(d: nat) -> char {
    if d == 0 { '0' }
    else if d == 1 { '1' }
    else if d == 2 { '2' }
    else if d == 3 { '3' }
    else if d == 4 { '4' }
    else if d == 5 { '5' }
    else if d == 6 { '6' }
    else if d == 7 { '7' }
    else if d == 8 { '8' }
    else { '9' }
}

/// The decimal text of a natural number, without sign or leading zeros.
pub open spec fn decimal(n: nat) -> Seq<char>
    decreases n,
{
    if n < 10 {
        seq![digit_char(n)]
    } else {
        decimal(n / 10) + seq![digit_char(n % 10)]
    }
}

fn digit_text(d: u32) -> (r: &'static str)
    requires
        d < 10,
    ensures
        r@ == seq![digit_char(d as nat)],
{
    proof {
        reveal_strlit("0");
        reveal_strlit("1");
        reveal_strlit("2");
        reveal_strlit("3");
        reveal_strlit("4");
        reveal_strlit("5");
        reveal_strlit("6");
        reveal_strlit("7");
        reveal_strlit("8");
        reveal_strlit("9");
    }
    match d {
        0 => "0",
        1 => "1",
        2 => "2",
        3 => "3",
        4 => "4",
        5 => "5",
        6 => "6",
        7 => "7",
        8 => "8",
        _ => "9",
    }
}

/// Writes `n` in decimal.
pub fn decimal_text(n: u32) -> (r: String)
    ensures
        r@ == decimal(n as nat),
    decreases n,
{
    if n < 10 {
        String::from_str(digit_text(n))
    } else {
        let mut s = decimal_text(n / 10);
        s.append(digit_text(n % 10));
        s
    }
}


/// Each item preceded by a space, with `sep` between consecutive items.
pub open spec fn joined(items: Seq<Seq<char>>, sep: Seq<char>) -> Seq<char>
    decreases items.len(),
{
    if items.len() == 0 {
        Seq::empty()
    } else if items.len() == 1 {
        seq![' '] + items[0]
    } else {
        joined(items.drop_last(), sep) + sep + seq![' '] + items.last()
    }
}

/// The views of a sequence of strings.
pub open spec fn texts(items: Seq<String>) -> Seq<Seq<char>> {
    items.map_values(|s: String| s@)
}

/// The statement that [`query_builder`] writes.
pub open spec fn query_text(
    select: Option<Seq<char>>,
    table_name: Seq<char>,
    wheres: Seq<Seq<char>>,
    order_by: Seq<Seq<char>>,
    limit: Option<u32>,
    offset: Option<u32>,
) -> Seq<char> {
    let head = "SELECT "@ + match select {
        Some(s) => s,
        None => " *"@,
    } + " FROM "@ + table_name;
    let filter = if wheres.len() == 0 {
        Seq::empty()
    } else {
        " WHERE "@ + joined(wheres, " AND"@)
    };
    let order = if order_by.len() == 0 {
        Seq::empty()
    } else {
        " ORDER BY"@ + joined(order_by, ","@)
    };
    let lim = match limit {
        Some(n) => " LIMIT "@ + decimal(n as nat),
        None => Seq::empty(),
    };
    let off = match offset {
        Some(n) => " OFFSET "@ + decimal(n as nat),
        None => Seq::empty(),
    };
    head + filter + order + lim + off
}

/// Appends each item preceded by a space, with `sep` between items.
fn append_joined(stmt: &mut String, items: &[String], sep: &str)
    ensures
        final(stmt)@ == old(stmt)@ + joined(texts(items@), sep@),
{
    let ghost start = stmt@;
    let mut idx: usize = 0;
    while idx < items.len()
        invariant
            idx <= items@.len(),
            stmt@ == start + joined(texts(items@).take(idx as int), sep@),
        decreases items@.len() - idx,
    {
        let ghost before = stmt@;
        if idx > 0 {
            stmt.append(sep);
        }
        stmt.append(" ");
        stmt.append(items[idx].as_str());
        proof {
            reveal_strlit(" ");
            let t = texts(items@);
            assert(t.take(idx + 1).drop_last() =~= t.take(idx as int));
            assert(t.take(idx + 1).last() == items@[idx as int]@);
            if idx == 0 {
                assert(t.take(1).len() == 1);
                assert(stmt@ =~= start + joined(t.take(idx + 1), sep@));
            } else {
                assert(stmt@ =~= start + joined(t.take(idx + 1), sep@));
            }
        }
        idx = idx + 1;
    }
    proof {
        assert(texts(items@).take(items@.len() as int) =~= texts(items@));
    }
}

/// Builds a `SELECT` statement: the selected columns (`*` when none are
/// given), the table, the filters joined by `AND`, the ordering terms joined
/// by commas, and the optional `LIMIT` and `OFFSET`.
#[verifier::rlimit(40)]
pub fn query_builder(
    select: Option<String>,
    table_name: &str,
    wheres: &[String],
    order_by: Vec<String>,
    limit: Option<u32>,
    offset: Option<u32>,
) -> (r: String)
    ensures
        r@ == query_text(
            match select {
                Some(s) => Some(s@),
                None => None,
            },
            table_name@,
            texts(wheres@),
            texts(order_by@),
            limit,
            offset,
        ),
{
    proof {
        reveal_strlit("SELECT ");
        reveal_strlit(" *");
        reveal_strlit(" FROM ");
        reveal_strlit(" WHERE ");
        reveal_strlit(" AND");
        reveal_strlit(" ORDER BY");
        reveal_strlit(",");
        reveal_strlit(" LIMIT ");
        reveal_strlit(" OFFSET ");
    }
    let mut stmt = String::from_str("SELECT ");
    match &select {
        Some(val) => stmt.append(val.as_str()),
        None => stmt.append(" *"),
    }
    stmt.append(" FROM ");
    stmt.append(table_name);
    let ghost head = stmt@;
    if wheres.len() > 0 {
        stmt.append(" WHERE ");
        append_joined(&mut stmt, wheres, " AND");
    }
    let ghost filtered = stmt@;
    if order_by.len() > 0 {
        stmt.append(" ORDER BY");
        append_joined(&mut stmt, order_by.as_slice(), ",");
    }
    let ghost ordered = stmt@;
    if let Some(n) = limit {
        stmt.append(" LIMIT ");
        let digits = decimal_text(n);
        stmt.append(digits.as_str());
    }
    let ghost limited = stmt@;
    if let Some(n) = offset {
        stmt.append(" OFFSET ");
        let digits = decimal_text(n);
        stmt.append(digits.as_str());
    }
    proof {
        let sel = match select {
            Some(s) => Some(s@),
            None => None,
        };
        let q = query_text(sel, table_name@, texts(wheres@), texts(order_by@), limit, offset);
        assert(texts(wheres@).len() == wheres@.len());
        assert(texts(order_by@).len() == order_by@.len());
        assert(stmt@ =~= q);
    }
    stmt
}


/// Rows per page when the caller names none.
pub const DEFAULT_PAGE_SIZE: u32 = 10;

/// The smallest number of pages of `page_size` rows that hold `total` rows.
pub open spec fn ceil_div(total: nat, page_size: nat) -> nat
    recommends
        page_size > 0,
{
    if total % page_size == 0 {
        total / page_size
    } else {
        total / page_size + 1
    }
}

/// The page count reported with a list: zero when every row is returned at
/// once, else the number of pages that hold all `total` rows.
pub open spec fn page_count_of(total: nat, page_size: nat, all: bool) -> nat {
    if all {
        0
    } else {
        ceil_div(total, page_size)
    }
}

/// The page count reported with a list of `total` rows.
pub fn page_count(total: u32, page_size: u32, all: bool) -> (r: u32)
    requires
        all || page_size > 0,
    ensures
        r == page_count_of(total as nat, page_size as nat, all),
        !all ==> r * page_size >= total && r * page_size < total + page_size,
{
    if all {
        0
    } else {
        let q = total / page_size;
        let rest = total % page_size;
        proof {
            assert(q * page_size + rest == total) by (nonlinear_arith)
                requires
                    q == total / page_size,
                    rest == total % page_size,
                    page_size > 0,
            ;
            assert(q * page_size <= total);
        }
        if rest == 0 {
            q
        } else {
            proof {
                assert((q + 1) * page_size == q * page_size + page_size) by (nonlinear_arith);
                assert(q <= q * page_size) by (nonlinear_arith)
                    requires
                        page_size > 0,
                ;
            }
            q + 1
        }
    }
}

/// Which rows of a list a request asks for: no bounds when it asks for all,
/// else one page.
pub struct ListWindow {
    pub page: u32,
    pub page_size: u32,
    pub all: bool,
    pub limit: Option<u32>,
    pub offset: Option<u32>,
}

/// Whether a request for a page can be served: the page is numbered from 1,
/// the size is positive and the offset fits in 32 bits.
pub open spec fn window_ok(page: nat, page_size: nat, all: bool) -> bool {
    all || (page >= 1 && page_size > 0 && (page - 1) * page_size <= u32::MAX)
}

/// The rows that a list request asks for. A page defaults to 1, a page size
/// to [`DEFAULT_PAGE_SIZE`], `all` to false.
pub fn list_window(page: Option<u32>, page_size: Option<u32>, all: Option<bool>) -> (r: ListWindow)
    requires
        window_ok(
            page.unwrap_or(1) as nat,
            page_size.unwrap_or(DEFAULT_PAGE_SIZE) as nat,
            all.unwrap_or(false),
        ),
    ensures
        r.page == page.unwrap_or(1),
        r.page_size == page_size.unwrap_or(DEFAULT_PAGE_SIZE),
        r.all == all.unwrap_or(false),
        r.all ==> r.limit is None && r.offset is None,
        !r.all ==> r.limit == Some(r.page_size) && r.offset == Some(
            ((r.page - 1) * r.page_size) as u32,
        ),
{
    let page = match page {
        Some(p) => p,
        None => 1,
    };
    let page_size = match page_size {
        Some(s) => s,
        None => DEFAULT_PAGE_SIZE,
    };
    let all = match all {
        Some(a) => a,
        None => false,
    };
    if all {
        ListWindow { page, page_size, all, limit: None, offset: None }
    } else {
        let offset = (page - 1) * page_size;
        ListWindow { page, page_size, all, limit: Some(page_size), offset: Some(offset) }
    }
}

} // verus!
