//! What a content source declares that its answer depends on.

use crate::headers::texts_of;
use vstd::prelude::*;

verus! {

/// What a [`ContentSourceDataFilter`] stands for.
pub enum FilterModel {
    All,
    Subset(Set<Seq<char>>),
}

impl FilterModel {
    /// Whether the filter lets `key` through.
    pub open spec fn contains(self, key: Seq<char>) -> bool {
        match self {
            FilterModel::All => true,
            FilterModel::Subset(keys) => keys.contains(key),
        }
    }
}

/// The names of the query parameters, or of the headers, that a content
/// source wants to see.
#[derive(Clone, Debug, PartialEq, Eq)]
pub enum ContentSourceDataFilter {
    /// Every name.
    All,
    /// These names and no others.
    Subset(Vec<String>),
}

impl View for ContentSourceDataFilter {
    type V = FilterModel;

    open spec fn view(&self) -> FilterModel {
        match self {
            ContentSourceDataFilter::All => FilterModel::All,
            ContentSourceDataFilter::Subset(keys) => FilterModel::Subset(
                texts_of(keys@).to_set(),
            ),
        }
    }
}

impl ContentSourceDataFilter {
    /// Whether the filter lets `key` through.
    pub fn contains(&self, key: &String) -> (found: bool)
        ensures
            found == self@.contains(key@),
    {
        match self {
            ContentSourceDataFilter::All => true,
            ContentSourceDataFilter::Subset(keys) => {
                let mut i: usize = 0;
                while i < keys.len()
                    invariant
                        i <= keys.len(),
                        self@ == FilterModel::Subset(texts_of(keys@).to_set()),
                        forall|j: int| 0 <= j < i ==> keys[j]@ != key@,
                    decreases keys.len() - i,
                {
                    if keys[i] == *key {
                        assert(texts_of(keys@)[i as int] == key@);
                        assert(texts_of(keys@).contains(key@));
                        return true;
                    }
                    i = i + 1;
                }
                assert(!texts_of(keys@).contains(key@));
                false
            },
        }
    }
}

/// What a [`ContentSourceDataVary`] stands for.
pub struct VaryModel {
    pub method: bool,
    pub url: bool,
    pub query: Option<FilterModel>,
    pub headers: Option<FilterModel>,
    pub body: bool,
    pub cache_buster: bool,
}

/// The parts of a request that a content source wants to see. Each part is
/// asked for on its own.
#[derive(Clone, Debug, PartialEq, Eq)]
pub struct ContentSourceDataVary {
    pub method: bool,
    pub url: bool,
    pub query: Option<ContentSourceDataFilter>,
    pub headers: Option<ContentSourceDataFilter>,
    pub body: bool,
    pub cache_buster: bool,
}

/// The view of an optional filter.
pub open spec fn filter_of(filter: Option<ContentSourceDataFilter>) -> Option<FilterModel> {
    match filter {
        Some(f) => Some(f@),
        None => None,
    }
}

impl View for ContentSourceDataVary {
    type V = VaryModel;

    open spec fn view(&self) -> VaryModel {
        VaryModel {
            method: self.method,
            url: self.url,
            query: filter_of(self.query),
            headers: filter_of(self.headers),
            body: self.body,
            cache_buster: self.cache_buster,
        }
    }
}

impl ContentSourceDataVary {
    /// The declaration that asks for nothing.
    pub fn none() -> (vary: ContentSourceDataVary)
        ensures
            vary@ == (VaryModel {
                method: false,
                url: false,
                query: None,
                headers: None,
                body: false,
                cache_buster: false,
            }),
    {
        ContentSourceDataVary {
            method: false,
            url: false,
            query: None,
            headers: None,
            body: false,
            cache_buster: false,
        }
    }
}

} // verus!
