use vstd::prelude::*;

verus! {

/// Parameters for running an engine inside a webview window.
pub struct WebParams {
    /// title for the window
    pub title: String,
    /// whether to show webview control messages
    pub debug: bool,
    /// height of the window in pixels
    pub height: i32,
    /// width of the window in pixels
    pub width: i32,
    /// whether to emit extra trace output while handling messages
    pub verbose: bool,
}

impl Default for WebParams {
    /// The default window: titled "App", 640 by 960 pixels, with the debug
    /// overlay and the extra tracing both switched off.
    fn default() -> (params: WebParams)
        ensures
            params.title@ == "App"@,
            !params.debug,
            params.width == 640,
            params.height == 960,
            !params.verbose,
    {
        WebParams {
            title: String::from_str("App"),
            debug: false,
            width: 640,
            height: 960,
            verbose: false,
        }
    }
}

} // verus!
