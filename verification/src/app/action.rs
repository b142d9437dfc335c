use vstd::prelude::*;
use crate::storage::{Credentials, Keybindings};

verus! {

/// Actions that can be triggered from UI components
pub enum AppAction {
    /// Quit the application
    Quit,
    /// Switch to home page
    SwitchToHome,
    /// Switch to login page
    SwitchToLogin,
    /// Switch to settings page
    SwitchToSettings,
    /// Login was successful with credentials
    LoginSuccess(Credentials),
    /// Play a video by bvid
    PlayVideo(String),
    /// Play an episode of a video with known ids and length
    PlayEpisode { bvid: String, aid: i64, cid: i64, duration: i64 },
    /// Navigate to next sidebar item
    NavNext,
    /// Navigate to previous sidebar item
    NavPrev,
    /// Search for videos
    Search(String),
    /// Refresh dynamic feed
    RefreshDynamic,
    /// Open video detail page (bvid, aid)
    OpenVideoDetail(String, i64),
    /// Go back to previous page
    BackToList,
    /// Load more recommendations
    LoadMoreRecommendations,
    /// Load more search results
    LoadMoreSearch,
    /// Load more dynamic items
    LoadMoreDynamic,
    /// Load more comments in video detail page
    LoadMoreComments,
    /// Show or hide the replies of the selected comment
    ToggleCommentReplies,
    /// Like or unlike a comment
    LikeComment { oid: i64, rpid: i64, comment_type: i32 },
    /// Post a comment
    AddComment { oid: i64, comment_type: i32, message: String, root: Option<i64> },
    /// Select UP master (0 = all, 1+ = specific UP)
    SelectUpMaster(usize),
    /// Switch to next theme variant
    NextTheme,
    /// Switch to the theme at this position of the theme list
    SetTheme(usize),
    /// Use these keybindings from now on and store them
    SaveKeybindings(Keybindings),
    /// Logout and return to login page
    Logout,
    /// No action
    NoOp,
}

} // verus!
