use vstd::prelude::*;
use vstd::string::*;

verus! {

/// Why a response from Instagram could not be turned into the data asked for.
#[derive(Clone, Debug, PartialEq, Eq)]
pub enum ApiError {
    /// The page holds no `window._sharedData` script.
    InvalidSharedData,
    /// A user search answered without a `users` array.
    UsersNotArray,
    /// Highlight reels were asked for a profile whose id is unknown.
    NoIdForHighlightReels,
    /// Stories were asked for a profile whose id is unknown.
    NoIdForStories,
    /// Posts were asked for a profile whose id is unknown.
    NoIdForPosts,
    /// A post page holds no post.
    PostNotFound,
    /// A text that should be JSON is not; the parser's message says why.
    NotJson(String),
}

impl ApiError {
    /// The text that the command line reports for this error.
    pub fn message(&self) -> (r: String)
        ensures
            r@ == match self {
                ApiError::InvalidSharedData => "Instagram sent a page with an invalid window._sharedData"@,
                ApiError::UsersNotArray => "While parsing 'users', expected array, got something else"@,
                ApiError::NoIdForHighlightReels => "id is None, can't fetch highlight reels"@,
                ApiError::NoIdForStories => "id is None, can't fetch stories"@,
                ApiError::NoIdForPosts => "id is None, can't fetch highlights"@,
                ApiError::PostNotFound => "Masiero"@,
                ApiError::NotJson(m) => m@,
            },
    {
        match self {
            ApiError::InvalidSharedData => String::from_str(
                "Instagram sent a page with an invalid window._sharedData",
            ),
            ApiError::UsersNotArray => String::from_str(
                "While parsing 'users', expected array, got something else",
            ),
            ApiError::NoIdForHighlightReels => String::from_str(
                "id is None, can't fetch highlight reels",
            ),
            ApiError::NoIdForStories => String::from_str("id is None, can't fetch stories"),
            ApiError::NoIdForPosts => String::from_str("id is None, can't fetch highlights"),
            ApiError::PostNotFound => String::from_str("Masiero"),
            ApiError::NotJson(m) => m.clone(),
        }
    }
}

} // verus!
