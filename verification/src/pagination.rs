//! The paging envelope of a search response.

use crate::json::{lookup, lookup_from, no_fields, put, Json, JsonModel};
use crate::wire::{
    encoded_optional, lemma_optional_round_trip, lemma_required_round_trip, optional,
    read_optional, read_required, required, write_optional, Wire,
};
use vstd::prelude::*;

verus! {

/// Where a page of results stands among all of them.
#[derive(Debug, Clone, PartialEq, Eq)]
pub struct Pagination {
    /// The number of this page, counted from one.
    pub page: u8,
    /// The number of the next page; absent on the last page.
    pub page_next: Option<u8>,
    /// The number of the previous page; absent on the first page.
    pub page_prev: Option<u8>,
    /// How many pages there are.
    pub page_total: u8,
    /// How many results this page holds.
    pub results: u8,
    /// How many results a full page holds.
    pub results_per_page: u8,
    /// How many results there are on all pages together.
    pub results_total: u16,
}

/// The mathematical value of a [`Pagination`].
pub struct PaginationView {
    pub page: u8,
    pub page_next: Option<u8>,
    pub page_prev: Option<u8>,
    pub page_total: u8,
    pub results: u8,
    pub results_per_page: u8,
    pub results_total: u16,
}

impl DeepView for Pagination {
    type V = PaginationView;

    open spec fn deep_view(&self) -> PaginationView {
        PaginationView {
            page: self.page.deep_view(),
            page_next: self.page_next.deep_view(),
            page_prev: self.page_prev.deep_view(),
            page_total: self.page_total.deep_view(),
            results: self.results.deep_view(),
            results_per_page: self.results_per_page.deep_view(),
            results_total: self.results_total.deep_view(),
        }
    }
}

impl Wire for Pagination {
    open spec fn decoded(doc: JsonModel) -> Result<PaginationView, Seq<char>> {
        match doc {
            JsonModel::Object(fields) => {
                let page = required::<u8>(fields, "Page"@, "page"@);
                let page_next = optional::<u8>(fields, "PageNext"@, "page_next"@);
                let page_prev = optional::<u8>(fields, "PagePrev"@, "page_prev"@);
                let page_total = required::<u8>(fields, "PageTotal"@, "page_total"@);
                let results = required::<u8>(fields, "Results"@, "results"@);
                let results_per_page = required::<u8>(
                    fields,
                    "ResultsPerPage"@,
                    "results_per_page"@,
                );
                let results_total = required::<u16>(fields, "ResultsTotal"@, "results_total"@);
                if page is Err {
                    Err(page->Err_0)
                } else if page_next is Err {
                    Err(page_next->Err_0)
                } else if page_prev is Err {
                    Err(page_prev->Err_0)
                } else if page_total is Err {
                    Err(page_total->Err_0)
                } else if results is Err {
                    Err(results->Err_0)
                } else if results_per_page is Err {
                    Err(results_per_page->Err_0)
                } else if results_total is Err {
                    Err(results_total->Err_0)
                } else {
                    Ok(
                        PaginationView {
                            page: page->Ok_0,
                            page_next: page_next->Ok_0,
                            page_prev: page_prev->Ok_0,
                            page_total: page_total->Ok_0,
                            results: results->Ok_0,
                            results_per_page: results_per_page->Ok_0,
                            results_total: results_total->Ok_0,
                        },
                    )
                }
            },
            _ => Err(Seq::empty()),
        }
    }

    open spec fn encoded(value: PaginationView) -> JsonModel {
        JsonModel::Object(
            Seq::empty()
                .push(("Page"@, u8::encoded(value.page)))
                .push(("PageNext"@, encoded_optional::<u8>(value.page_next)))
                .push(("PagePrev"@, encoded_optional::<u8>(value.page_prev)))
                .push(("PageTotal"@, u8::encoded(value.page_total)))
                .push(("Results"@, u8::encoded(value.results)))
                .push(("ResultsPerPage"@, u8::encoded(value.results_per_page)))
                .push(("ResultsTotal"@, u16::encoded(value.results_total))),
        )
    }

    fn from_json(doc: &Json) -> (r: Result<Pagination, String>) {
        match doc.as_object() {
            None => Err(String::new()),
            Some(fields) => {
                let page = read_required::<u8>(fields, "Page", "page")?;
                let page_next = read_optional::<u8>(fields, "PageNext", "page_next")?;
                let page_prev = read_optional::<u8>(fields, "PagePrev", "page_prev")?;
                let page_total = read_required::<u8>(fields, "PageTotal", "page_total")?;
                let results = read_required::<u8>(fields, "Results", "results")?;
                let results_per_page = read_required::<u8>(
                    fields,
                    "ResultsPerPage",
                    "results_per_page",
                )?;
                let results_total = read_required::<u16>(fields, "ResultsTotal", "results_total")?;
                Ok(
                    Pagination {
                        page,
                        page_next,
                        page_prev,
                        page_total,
                        results,
                        results_per_page,
                        results_total,
                    },
                )
            },
        }
    }

    fn to_json(&self) -> (doc: Json) {
        let mut fields = no_fields();
        put(&mut fields, "Page", self.page.to_json());
        put(&mut fields, "PageNext", write_optional(&self.page_next));
        put(&mut fields, "PagePrev", write_optional(&self.page_prev));
        put(&mut fields, "PageTotal", self.page_total.to_json());
        put(&mut fields, "Results", self.results.to_json());
        put(&mut fields, "ResultsPerPage", self.results_per_page.to_json());
        put(&mut fields, "ResultsTotal", self.results_total.to_json());
        Json::object(fields)
    }

    proof fn lemma_round_trip(value: PaginationView) {
        // The names differ from one another in their length or in one of the
        // characters stated here.
        reveal_strlit("Page");
        reveal_strlit("PageNext");
        reveal_strlit("PagePrev");
        reveal_strlit("PageTotal");
        reveal_strlit("Results");
        reveal_strlit("ResultsPerPage");
        reveal_strlit("ResultsTotal");
        assert("Page"@.len() == 4);
        assert("PageNext"@.len() == 8 && "PageNext"@[4] == 'N');
        assert("PagePrev"@.len() == 8 && "PagePrev"@[4] == 'P');
        assert("PageTotal"@.len() == 9);
        assert("Results"@.len() == 7);
        assert("ResultsPerPage"@.len() == 14);
        assert("ResultsTotal"@.len() == 12);
        reveal_with_fuel(lookup_from, 8);
        let fields = Self::encoded(value)->Object_0;
        lemma_required_round_trip::<u8>(fields, "Page"@, "page"@, value.page);
        lemma_optional_round_trip::<u8>(fields, "PageNext"@, "page_next"@, value.page_next);
        lemma_optional_round_trip::<u8>(fields, "PagePrev"@, "page_prev"@, value.page_prev);
        lemma_required_round_trip::<u8>(fields, "PageTotal"@, "page_total"@, value.page_total);
        lemma_required_round_trip::<u8>(fields, "Results"@, "results"@, value.results);
        lemma_required_round_trip::<u8>(
            fields,
            "ResultsPerPage"@,
            "results_per_page"@,
            value.results_per_page,
        );
        lemma_required_round_trip::<u16>(
            fields,
            "ResultsTotal"@,
            "results_total"@,
            value.results_total,
        );
    }
}

impl Pagination {
    /// Where a document decodes, an optional member that it leaves out is
    /// absent in the value.
    pub proof fn lemma_absent_members(fields: Seq<(Seq<char>, JsonModel)>)
        requires
            Self::decoded(JsonModel::Object(fields)) is Ok,
        ensures
            lookup(fields, "PageNext"@) is None ==> Self::decoded(
                JsonModel::Object(fields),
            )->Ok_0.page_next is None,
            lookup(fields, "PagePrev"@) is None ==> Self::decoded(
                JsonModel::Object(fields),
            )->Ok_0.page_prev is None,
    {
    }
}

} // verus!
