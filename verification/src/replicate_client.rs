//! What the image backend answers, and which of its outputs can be shown.

use crate::trusted::{is_url, url_parses};
use vstd::prelude::*;

verus! {

/// What is logged as the cause where the image backend gave neither a
/// usable output nor an error of its own.
pub const NO_OUTPUT: &'static str = "the image backend produced no output";

/// The image backend's answer: the addresses of the images it made, where
/// it made any, and its error, where it reported one.
#[derive(Debug, PartialEq, Eq)]
pub struct ImageResponse {
    pub output: Option<Vec<String>>,
    pub error: Option<String>,
}

/// An image answer as a mathematical value.
pub struct ImageResponseView {
    pub output: Option<Seq<Seq<char>>>,
    pub error: Option<Seq<char>>,
}

impl View for ImageResponse {
    type V = ImageResponseView;

    open spec fn view(&self) -> ImageResponseView {
        ImageResponseView { output: self.output.deep_view(), error: self.error.deep_view() }
    }
}

impl DeepView for ImageResponse {
    type V = ImageResponseView;

    open spec fn deep_view(&self) -> ImageResponseView {
        self@
    }
}

/// Those of `outputs` that read as a URL, in their order.
pub open spec fn usable_urls(outputs: Seq<Seq<char>>) -> Seq<Seq<char>>
    decreases outputs.len(),
{
    if outputs.len() == 0 {
        Seq::<Seq<char>>::empty()
    } else if url_parses(outputs.last()) {
        usable_urls(outputs.drop_last()).push(outputs.last())
    } else {
        usable_urls(outputs.drop_last())
    }
}

/// Those of `outputs` whose flag in `keep` is set, in their order.
pub open spec fn selected(outputs: Seq<Seq<char>>, keep: Seq<bool>) -> Seq<Seq<char>>
    decreases outputs.len(),
{
    if outputs.len() == 0 || keep.len() != outputs.len() {
        Seq::<Seq<char>>::empty()
    } else if keep.last() {
        selected(outputs.drop_last(), keep.drop_last()).push(outputs.last())
    } else {
        selected(outputs.drop_last(), keep.drop_last())
    }
}

/// Keeps of `outputs`, in their order, exactly those whose flag in `keep`
/// is set. `keep` holds one flag for each output; where it does not,
/// nothing is kept.
pub fn select_urls(outputs: &Vec<String>, keep: &Vec<bool>) -> (media: Vec<String>)
    ensures
        media.deep_view() == selected(outputs.deep_view(), keep@),
{
    let ghost all = outputs.deep_view();
    let mut media: Vec<String> = Vec::new();
    if keep.len() != outputs.len() {
        assert(media.deep_view() =~= selected(all, keep@));
        return media;
    }
    assert(media.deep_view() =~= selected(all.take(0), keep@.take(0)));
    let mut i: usize = 0;
    while i < outputs.len()
        invariant
            i <= outputs.len(),
            keep.len() == outputs.len(),
            all == outputs.deep_view(),
            media.deep_view() == selected(all.take(i as int), keep@.take(i as int)),
        decreases outputs.len() - i,
    {
        let ghost before = media.deep_view();
        assert(all.take(i + 1).drop_last() =~= all.take(i as int));
        assert(keep@.take(i + 1).drop_last() =~= keep@.take(i as int));
        assert(all.take(i + 1).last() == outputs[i as int]@);
        if keep[i] {
            media.push(outputs[i].clone());
            assert(media.deep_view() =~= before.push(outputs[i as int]@));
        }
        i = i + 1;
    }
    assert(all.take(outputs.len() as int) =~= all);
    assert(keep@.take(outputs.len() as int) =~= keep@);
    media
}

/// The flags that mark the outputs that read as a URL.
pub open spec fn url_flags(outputs: Seq<Seq<char>>) -> Seq<bool> {
    Seq::new(outputs.len(), |i: int| url_parses(outputs[i]))
}

/// Selecting by the URL flags gives the usable URLs.
pub proof fn selected_by_url_flags(outputs: Seq<Seq<char>>)
    ensures
        selected(outputs, url_flags(outputs)) == usable_urls(outputs),
    decreases outputs.len(),
{
    if outputs.len() > 0 {
        selected_by_url_flags(outputs.drop_last());
        assert(url_flags(outputs).drop_last() =~= url_flags(outputs.drop_last()));
    }
}

/// Tells for each output whether it reads as a URL.
pub fn flag_urls(outputs: &Vec<String>) -> (keep: Vec<bool>)
    ensures
        keep@ == url_flags(outputs.deep_view()),
{
    let mut keep: Vec<bool> = Vec::new();
    let mut i: usize = 0;
    while i < outputs.len()
        invariant
            i <= outputs.len(),
            keep.len() == i,
            forall|j: int| 0 <= j < i ==> keep@[j] == url_parses(#[trigger] outputs@[j]@),
        decreases outputs.len() - i,
    {
        keep.push(is_url(outputs[i].as_str()));
        i = i + 1;
    }
    assert(keep@ =~= url_flags(outputs.deep_view()));
    keep
}

/// The outputs that can be shown: those that read as a URL.
pub fn media_urls(outputs: &Vec<String>) -> (media: Vec<String>)
    ensures
        media.deep_view() == usable_urls(outputs.deep_view()),
{
    let keep = flag_urls(outputs);
    proof {
        selected_by_url_flags(outputs.deep_view());
    }
    select_urls(outputs, &keep)
}

} // verus!
