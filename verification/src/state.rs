use vstd::prelude::*;

verus! {

/// Process-wide configuration, built once at startup and read-only afterwards.
pub struct AppState {
    pub app_name: String,
}

impl AppState {
    pub fn build(app_name: String) -> (state: AppState)
        ensures
            state.app_name@ == app_name@,
    {
        AppState { app_name }
    }
}

} // verus!
