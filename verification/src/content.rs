//! The digest data model.
//!
//! A `Content` is one day's digest as the upstream news API describes
//! it: a date string, an ordered sequence of stories, and optionally a
//! sequence of top stories. A `Story` is one headline entry. Both are
//! constructed fresh per request from the upstream response and
//! discarded after rendering; nothing here is persisted.

use vstd::prelude::*;

verus! {

/// The mathematical value of a story: its strings as character
/// sequences and its discriminators as integers.
pub ghost struct StoryV {
    pub image_hue: Option<Seq<char>>,
    pub title: Seq<char>,
    pub url: Seq<char>,
    pub hint: Seq<char>,
    pub ga_prefix: Seq<char>,
    pub images: Option<Seq<Seq<char>>>,
    pub type_: int,
    pub id: int,
}

/// One headline entry of a digest. Immutable once built; its identity
/// is `id`, though uniqueness across a digest is the upstream's
/// business, not enforced here.
pub struct Story {
    pub image_hue: Option<String>,
    pub title: String,
    pub url: String,
    pub hint: String,
    pub ga_prefix: String,
    pub images: Option<Vec<String>>,
    pub _type: i32,
    pub id: i32,
}

impl View for Story {
    type V = StoryV;

    open spec fn view(&self) -> StoryV {
        StoryV {
            image_hue: self.image_hue.deep_view(),
            title: self.title@,
            url: self.url@,
            hint: self.hint@,
            ga_prefix: self.ga_prefix@,
            images: self.images.deep_view(),
            type_: self._type as int,
            id: self.id as int,
        }
    }
}

impl DeepView for Story {
    type V = StoryV;

    open spec fn deep_view(&self) -> StoryV {
        self.view()
    }
}

/// The mathematical value of a digest.
pub ghost struct ContentV {
    pub date: Seq<char>,
    pub stories: Seq<StoryV>,
    pub top_stories: Option<Seq<StoryV>>,
}

/// One day's digest: the date it stands for and its stories.
pub struct Content {
    pub date: String,
    pub stories: Vec<Story>,
    pub top_stories: Option<Vec<Story>>,
}

impl View for Content {
    type V = ContentV;

    open spec fn view(&self) -> ContentV {
        ContentV {
            date: self.date@,
            stories: self.stories.deep_view(),
            top_stories: self.top_stories.deep_view(),
        }
    }
}

impl DeepView for Content {
    type V = ContentV;

    open spec fn deep_view(&self) -> ContentV {
        self.view()
    }
}

} // verus!
