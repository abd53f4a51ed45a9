//! One bounded slice of a larger collection: where it starts and how many
//! items it may hold.

use vstd::prelude::*;

verus! {

/// Offset of the first page. The controller counts items from one.
pub const FIRST_OFFSET: u64 = 1;

/// Page size used when nothing else is asked for.
pub const DEFAULT_LIMIT: u64 = 500;

/// A page request: the one-based `offset` of its first item and the largest
/// number of items (`limit`) it may return. Both are positive.
#[derive(Clone, Copy, Debug)]
pub struct Pagination {
    offset: u64,
    limit: u64,
}

/// Model of a [`Pagination`], and of a [`PaginationBuilder`].
pub struct Page {
    pub offset: u64,
    pub limit: u64,
}

/// Collects the two numbers of a [`Pagination`], starting from the defaults.
#[derive(Debug)]
pub struct PaginationBuilder {
    offset: u64,
    limit: u64,
}

impl Pagination {
    #[verifier::type_invariant]
    spec fn positive(self) -> bool {
        self.offset >= 1 && self.limit >= 1
    }

    /// The one-based position of the first item asked for.
    pub open spec fn spec_offset(&self) -> u64 {
        self@.offset
    }

    /// The largest number of items the page may hold.
    pub open spec fn spec_limit(&self) -> u64 {
        self@.limit
    }

    /// A builder that starts at offset 1 with a limit of 500.
    pub fn builder() -> (b: PaginationBuilder)
        ensures
            b.spec_offset() == FIRST_OFFSET,
            b.spec_limit() == DEFAULT_LIMIT,
    {
        let pagination = Pagination::default();
        PaginationBuilder { offset: pagination.offset, limit: pagination.limit }
    }

    /// Replaces the limit and keeps the offset.
    pub fn set_limit(&mut self, limit: u64)
        requires
            limit >= 1,
        ensures
            final(self).spec_limit() == limit,
            final(self).spec_offset() == old(self).spec_offset(),
    {
        proof {
            use_type_invariant(&*self);
        }
        self.limit = limit;
    }

    /// Replaces the offset and keeps the limit.
    pub fn set_offset(&mut self, offset: u64)
        requires
            offset >= 1,
        ensures
            final(self).spec_offset() == offset,
            final(self).spec_limit() == old(self).spec_limit(),
    {
        proof {
            use_type_invariant(&*self);
        }
        self.offset = offset;
    }

    /// The one-based position of the first item asked for.
    #[verifier::when_used_as_spec(spec_offset)]
    pub fn offset(&self) -> (r: u64)
        ensures
            r == self.spec_offset(),
            r >= 1,
    {
        proof {
            use_type_invariant(self);
        }
        self.offset
    }

    /// The largest number of items the page may hold.
    #[verifier::when_used_as_spec(spec_limit)]
    pub fn limit(&self) -> (r: u64)
        ensures
            r == self.spec_limit(),
            r >= 1,
    {
        proof {
            use_type_invariant(self);
        }
        self.limit
    }
}

impl View for Pagination {
    type V = Page;

    closed spec fn view(&self) -> Page {
        Page { offset: self.offset, limit: self.limit }
    }
}

impl View for PaginationBuilder {
    type V = Page;

    closed spec fn view(&self) -> Page {
        Page { offset: self.offset, limit: self.limit }
    }
}

/// The model of an optional page.
pub open spec fn page_of(pagination: Option<Pagination>) -> Option<Page> {
    match pagination {
        Some(p) => Some(p@),
        None => None,
    }
}

impl Default for Pagination {
    fn default() -> (p: Self)
        ensures
            p.spec_offset() == FIRST_OFFSET,
            p.spec_limit() == DEFAULT_LIMIT,
    {
        Self { limit: DEFAULT_LIMIT, offset: FIRST_OFFSET }
    }
}

impl PaginationBuilder {
    /// The offset the built value will have.
    pub open spec fn spec_offset(&self) -> u64 {
        self@.offset
    }

    /// The limit the built value will have.
    pub open spec fn spec_limit(&self) -> u64 {
        self@.limit
    }

    #[verifier::type_invariant]
    spec fn positive(self) -> bool {
        self.offset >= 1 && self.limit >= 1
    }

    /// Sets the limit and keeps the offset.
    pub fn with_limit(self, limit: u64) -> (b: Self)
        requires
            limit >= 1,
        ensures
            b.spec_limit() == limit,
            b.spec_offset() == self.spec_offset(),
    {
        proof {
            use_type_invariant(&self);
        }
        let mut b = self;
        b.limit = limit;
        b
    }

    /// Sets the offset and keeps the limit.
    pub fn with_offset(self, offset: u64) -> (b: Self)
        requires
            offset >= 1,
        ensures
            b.spec_offset() == offset,
            b.spec_limit() == self.spec_limit(),
    {
        proof {
            use_type_invariant(&self);
        }
        let mut b = self;
        b.offset = offset;
        b
    }

    /// The page request with the numbers collected.
    pub fn build(self) -> (p: Pagination)
        ensures
            p.spec_offset() == self.spec_offset(),
            p.spec_limit() == self.spec_limit(),
    {
        proof {
            use_type_invariant(&self);
        }
        Pagination { offset: self.offset, limit: self.limit }
    }
}

} // verus!
