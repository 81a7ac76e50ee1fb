use vstd::prelude::*;
use crate::query::{param_of, Query};
use crate::text::{decimal, decimal_text};

verus! {

/// How many pages of a list a request gathers.
#[derive(Clone, Copy, Debug, PartialEq, Eq, Structural)]
pub enum PaginationRule {
    /// The first page only.
    FirstPage,
    /// At most this many pages.
    Fixed(usize),
    /// Every page the server reports.
    OneShot,
}

impl Default for PaginationRule {
    /// One page at most.
    fn default() -> (r: PaginationRule)
        ensures
            r == PaginationRule::Fixed(1),
    {
        PaginationRule::Fixed(1)
    }
}

/// The number of pages that `ceil(total / per_page)` gives; a page size of
/// zero counts as one.
pub open spec fn pages_for(total: nat, per_page: nat) -> nat {
    let s = if per_page == 0 { 1 } else { per_page };
    ((total + s - 1) / (s as int)) as nat
}

/// The pages a rule keeps out of `available`.
pub open spec fn pages_under_rule(available: nat, rule: PaginationRule) -> nat {
    match rule {
        PaginationRule::FirstPage => 1,
        PaginationRule::Fixed(n) => if available < n { available } else { n as nat },
        PaginationRule::OneShot => available,
    }
}

/// The page count for a response that reports `total` items (if it does) and
/// `per_page` items per page (if it does; one otherwise), under `rule`.
pub open spec fn page_count(total: Option<u64>, per_page: Option<u64>, rule: PaginationRule) -> nat {
    match total {
        Option::None => 1,
        Option::Some(t) => {
            let s: nat = match per_page {
                Option::Some(p) => p as nat,
                Option::None => 1,
            };
            pages_under_rule(pages_for(t as nat, s), rule)
        },
    }
}

/// Computes `page_count(total, per_page, rule)`.
pub fn resolve_page_count(total: Option<u64>, per_page: Option<u64>, rule: PaginationRule) -> (r: u64)
    ensures
        r as nat == page_count(total, per_page, rule),
{
    match total {
        Option::None => 1,
        Option::Some(t) => {
            let s: u64 = match per_page {
                Option::Some(p) => if p == 0 { 1 } else { p },
                Option::None => 1,
            };
            let q = t / s;
            let rem = t % s;
            proof {
                let ss = s as int;
                let tt = t as int;
                assert(tt == ss * (q as int) + (rem as int)) by (nonlinear_arith)
                    requires ss > 0, q == tt / ss, rem == tt % ss;
                if rem == 0 {
                    assert((tt + ss - 1) / ss == q as int) by (nonlinear_arith)
                        requires ss > 0, tt == ss * (q as int);
                } else {
                    assert(ss >= 2);
                    assert(2 * (q as int) <= tt) by (nonlinear_arith)
                        requires ss >= 2, tt == ss * (q as int) + (rem as int), q >= 0, rem >= 0;
                    assert((tt + ss - 1) / ss == q + 1) by (nonlinear_arith)
                        requires ss > 0, 0 < rem < ss, tt == ss * (q as int) + (rem as int);
                }
            }
            let available: u64 = if rem == 0 { q } else { q + 1 };
            match rule {
                PaginationRule::FirstPage => 1,
                PaginationRule::Fixed(n) => {
                    if available < n as u64 { available } else { n as u64 }
                },
                PaginationRule::OneShot => available,
            }
        },
    }
}

/// The page parameters of page `page` of `size` items.
pub open spec fn page_params(page: nat, size: nat) -> Seq<Seq<char>> {
    seq![param_of("page[number]"@, decimal(page)), param_of("page[size]"@, decimal(size))]
}

/// Page-number pagination: `page[number]` from 1 and `page[size]`.
#[derive(Clone, Copy, Debug)]
pub struct RequestPagination {
    pub size: usize,
    pub current_page: usize,
    pub pagination: PaginationRule,
}

impl Default for RequestPagination {
    /// 100 items a page, page 1, one page at most.
    fn default() -> (r: RequestPagination)
        ensures
            r.size == 100,
            r.current_page == 1,
            r.pagination == PaginationRule::Fixed(1),
    {
        RequestPagination { size: 100, current_page: 1, pagination: PaginationRule::Fixed(1) }
    }
}

/// Pagination state that a request carries: a page size, the page to ask
/// for next, and the rule on how many pages to gather.
pub trait Pagination: Sized {
    spec fn page_spec(&self) -> nat;

    spec fn size_spec(&self) -> nat;

    spec fn rule_spec(&self) -> PaginationRule;

    /// The parameters that ask for the current page.
    spec fn page_query_spec(&self) -> Seq<Seq<char>>;

    fn size(self, size: usize) -> (r: Self)
        ensures
            r.size_spec() == size,
            r.page_spec() == self.page_spec(),
            r.rule_spec() == self.rule_spec();

    fn reset(&mut self)
        ensures
            final(self).page_spec() == 1,
            final(self).size_spec() == old(self).size_spec(),
            final(self).rule_spec() == old(self).rule_spec();

    fn set_pagination(self, rule: PaginationRule) -> (r: Self)
        ensures
            r.rule_spec() == rule,
            r.page_spec() == self.page_spec(),
            r.size_spec() == self.size_spec();

    fn pagination(&self) -> (r: &PaginationRule)
        ensures
            *r == self.rule_spec();

    fn current_page(&self) -> (r: usize)
        ensures
            r == self.page_spec();

    fn get_current_page(&self) -> (r: Query)
        ensures
            r@ == self.page_query_spec();

    fn get_size(&self) -> (r: Query)
        ensures
            r@ == seq![param_of("page[size]"@, decimal(self.size_spec()))];

    fn next(&mut self)
        requires
            old(self).page_spec() < usize::MAX,
        ensures
            final(self).page_spec() == old(self).page_spec() + 1,
            final(self).size_spec() == old(self).size_spec(),
            final(self).rule_spec() == old(self).rule_spec();

    fn get_next_page(&mut self) -> (r: Query)
        requires
            old(self).page_spec() < usize::MAX,
        ensures
            final(self).page_spec() == old(self).page_spec() + 1,
            final(self).size_spec() == old(self).size_spec(),
            final(self).rule_spec() == old(self).rule_spec(),
            r@ == final(self).page_query_spec();
}

impl Pagination for RequestPagination {
    open spec fn page_spec(&self) -> nat {
        self.current_page as nat
    }

    open spec fn size_spec(&self) -> nat {
        self.size as nat
    }

    open spec fn rule_spec(&self) -> PaginationRule {
        self.pagination
    }

    open spec fn page_query_spec(&self) -> Seq<Seq<char>> {
        page_params(self.current_page as nat, self.size as nat)
    }

    fn size(self, size: usize) -> (r: Self) {
        RequestPagination { size, ..self }
    }

    fn reset(&mut self) {
        self.current_page = 1;
    }

    fn set_pagination(self, rule: PaginationRule) -> (r: Self) {
        RequestPagination { pagination: rule, ..self }
    }

    fn pagination(&self) -> (r: &PaginationRule) {
        &self.pagination
    }

    fn current_page(&self) -> (r: usize) {
        self.current_page
    }

    fn get_current_page(&self) -> (r: Query) {
        let number = decimal_text(self.current_page);
        let size = decimal_text(self.size);
        Query::new().add("page[number]", number.as_str()).add("page[size]", size.as_str())
    }

    fn get_size(&self) -> (r: Query) {
        let size = decimal_text(self.size);
        Query::new().add("page[size]", size.as_str())
    }

    fn next(&mut self) {
        self.current_page = self.current_page + 1;
    }

    fn get_next_page(&mut self) -> (r: Query) {
        self.next();
        self.get_current_page()
    }
}

} // verus!
