//! Quota waits: how long a turn sleeps after a usage limit, what it announces
//! meanwhile, and how the countdown and the recovery banner of the wait are shown.

pub mod backend_banner;
pub mod chat_widget;
pub mod clock;
pub mod countdown;
pub mod pane;
pub mod quota_wait;
pub mod text;
