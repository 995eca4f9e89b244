//! The settings the pipeline hands the sink when it starts it.
use vstd::prelude::*;

verus! {

/// A named shell command that can be run on a media; `%` in it stands for the media.
#[derive(Debug)]
pub struct Action {
    pub name: String,
    pub command: String,
}

impl Default for Action {
    /// An action with empty name and command.
    fn default() -> (r: Action)
        ensures
            r.name@.len() == 0,
            r.command@.len() == 0,
    {
        Action { name: String::new(), command: String::new() }
    }
}

/// The sink's settings: its actions, and how many media it shows at once.
#[derive(Debug)]
pub struct Config {
    pub actions: Vec<Action>,
    pub render_amount: usize,
}

/// `c` is the default config: no actions, showing none.
pub open spec fn is_default_config(c: Config) -> bool {
    c.actions@.len() == 0 && c.render_amount == 0
}

impl Default for Config {
    /// No actions, showing none.
    fn default() -> (r: Config)
        ensures
            is_default_config(r),
    {
        Config { actions: Vec::new(), render_amount: 0 }
    }
}

} // verus!
