//! A message of the user.
use std::path::PathBuf;

use vstd::prelude::*;
use vstd::string::*;

use crate::protocol::{InputItem, InputItemView};

verus! {

/// A message: its text, images that go with it, and text that the agent gets but that is not
/// shown.
#[derive(Debug, PartialEq, Eq)]
pub struct UserMessage {
    pub text: String,
    pub image_paths: Vec<PathBuf>,
    pub extra_text: Option<String>,
}

/// A message, its texts as sequences of characters.
pub struct UserMessageView {
    pub text: Seq<char>,
    pub image_paths: Seq<PathBuf>,
    pub extra_text: Option<Seq<char>>,
}

impl DeepView for UserMessage {
    type V = UserMessageView;

    open spec fn deep_view(&self) -> UserMessageView {
        UserMessageView {
            text: self.text@,
            image_paths: self.image_paths@,
            extra_text: self.extra_text.deep_view(),
        }
    }
}

impl UserMessageView {
    /// A message that is text alone.
    pub open spec fn plain(text: Seq<char>) -> UserMessageView {
        UserMessageView { text, image_paths: Seq::empty(), extra_text: None }
    }

    /// What the agent gets of a message: the text, the text that is not shown, and the images,
    /// each as far as there is any.
    pub open spec fn items(self) -> Seq<InputItemView> {
        text_items(Some(self.text)) + text_items(self.extra_text) + self.image_paths.map_values(
            |path: PathBuf| InputItemView::LocalImage { path },
        )
    }
}

/// A text as input to the agent; nothing for an empty text.
pub open spec fn text_items(text: Option<Seq<char>>) -> Seq<InputItemView> {
    match text {
        Some(s) if s.len() > 0 => seq![InputItemView::Text { text: s }],
        _ => Seq::empty(),
    }
}

impl UserMessage {
    /// A message that is text alone.
    pub fn from(text: String) -> (r: UserMessage)
        ensures
            r.deep_view() == UserMessageView::plain(text@),
    {
        UserMessage { text, image_paths: Vec::new(), extra_text: None }
    }

    /// What the agent gets of a message.
    pub fn into_items(self) -> (r: Vec<InputItem>)
        ensures
            r.deep_view() == self.deep_view().items(),
    {
        let UserMessage { text, image_paths, extra_text } = self;
        let ghost view = self.deep_view();
        let mut items: Vec<InputItem> = Vec::new();
        if !text.as_str().is_empty() {
            items.push(InputItem::Text { text });
        }
        assert(items.deep_view() =~= text_items(Some(view.text)));
        if let Some(extra) = extra_text {
            if !extra.as_str().is_empty() {
                items.push(InputItem::Text { text: extra });
            }
        }
        let ghost texts = text_items(Some(view.text)) + text_items(view.extra_text);
        assert(items.deep_view() =~= texts);
        let ghost image = |path: PathBuf| InputItemView::LocalImage { path };
        for path in it: image_paths
            invariant
                it.seq() == view.image_paths,
                image == (|path: PathBuf| InputItemView::LocalImage { path }),
                items.deep_view() =~= texts + view.image_paths.take(it.index()).map_values(image),
        {
            let ghost before = items.deep_view();
            let ghost k = it.index();
            items.push(InputItem::LocalImage { path });
            proof {
                assert(items.deep_view() =~= before.push(image(path)));
                assert(view.image_paths.take(k + 1) =~= view.image_paths.take(k).push(path));
            }
        }
        assert(view.image_paths.take(view.image_paths.len() as int) =~= view.image_paths);
        items
    }
}

/// The message with which a session starts: none if there is neither text nor an image.
pub open spec fn initial_message(text: Seq<char>, image_paths: Seq<PathBuf>) -> Option<
    UserMessageView,
> {
    if text.len() == 0 && image_paths.len() == 0 {
        None
    } else {
        Some(UserMessageView { text, image_paths, extra_text: None })
    }
}

/// The message with which a session starts.
pub fn create_initial_user_message(text: String, image_paths: Vec<PathBuf>) -> (r: Option<
    UserMessage,
>)
    ensures
        r.deep_view() == initial_message(text@, image_paths@),
{
    if text.as_str().is_empty() && image_paths.is_empty() {
        None
    } else {
        Some(UserMessage { text, image_paths, extra_text: None })
    }
}

} // verus!
