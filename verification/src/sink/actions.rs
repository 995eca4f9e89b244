//! The sink's actions: shell commands run on a media, looked up by name.
use vstd::prelude::*;

use crate::keyed::KeyedList;
use crate::sink::config::Action;
use crate::text::{owned, replace_all, replace_char};

verus! {

/// The actions by name, each with its command.
pub struct ActionsRust {
    pub actions: KeyedList<String>,
}

/// The commands by action name that a list of actions gives: a later action of the same name
/// replaces an earlier one.
pub open spec fn action_commands(actions: Seq<Action>) -> Map<Seq<char>, Seq<char>>
    decreases actions.len(),
{
    if actions.len() == 0 {
        Map::empty()
    } else {
        action_commands(actions.drop_last()).insert(
            actions.last().name@,
            actions.last().command@,
        )
    }
}

/// Looking an action up gives the command of the last action of that name.
pub proof fn lemma_last_action_wins(actions: Seq<Action>, i: int)
    requires
        0 <= i < actions.len(),
        forall|j: int| i < j < actions.len() ==> #[trigger] actions[j].name@ != actions[i].name@,
    ensures
        action_commands(actions).contains_key(actions[i].name@),
        action_commands(actions)[actions[i].name@] == actions[i].command@,
    decreases actions.len(),
{
    if i < actions.len() - 1 {
        lemma_last_action_wins(actions.drop_last(), i);
        assert(actions.last().name@ != actions[i].name@);
    }
}

/// The commands of the actions, seen as characters.
pub open spec fn commands_view(t: KeyedList<String>) -> Map<Seq<char>, Seq<char>> {
    t.table().map_values(|s: String| s@)
}

/// A shell command line to run: the shell, its flag, and the command.
#[derive(Debug)]
pub struct ActionInvocation {
    pub shell: String,
    pub flag: String,
    pub arg: String,
}

impl ActionsRust {
    /// The actions of the config, by name.
    pub fn from_config(actions: &Vec<Action>) -> (r: ActionsRust)
        ensures
            commands_view(r.actions) == action_commands(actions@),
    {
        let mut table: KeyedList<String> = KeyedList::new();
        assert(commands_view(table) =~= Map::<Seq<char>, Seq<char>>::empty());
        let mut i: usize = 0;
        while i < actions.len()
            invariant
                i <= actions@.len(),
                commands_view(table) == action_commands(actions@.subrange(0, i as int)),
            decreases actions@.len() - i,
        {
            assert(actions@.subrange(0, i + 1).drop_last() =~= actions@.subrange(0, i as int));
            let ghost before = table;
            table.insert(actions[i].name.clone(), actions[i].command.clone());
            assert(commands_view(table) =~= commands_view(before).insert(
                actions@[i as int].name@,
                actions@[i as int].command@,
            ));
            i = i + 1;
        }
        assert(actions@.subrange(0, actions@.len() as int) =~= actions@);
        ActionsRust { actions: table }
    }

    /// The command of the action `name`, if there is one.
    pub fn command_for(&self, name: &str) -> (r: Option<String>)
        ensures
            match r {
                None => !commands_view(self.actions).contains_key(name@),
                Some(c) => commands_view(self.actions).contains_key(name@) && c@ == commands_view(
                    self.actions,
                )[name@],
            },
    {
        match self.actions.get(name) {
            Some(c) => Some(c.clone()),
            None => None,
        }
    }

    /// The command line that runs the action `name` on the media written as `media_json`:
    /// every `%` of the action's command is replaced by the media, and the command goes to
    /// `cmd /c` on Windows, to `sh -c` elsewhere.  `None` where there is no such action.
    pub fn invocation(&self, name: &str, media_json: &str, windows: bool) -> (r: Option<
        ActionInvocation,
    >)
        ensures
            match r {
                None => !commands_view(self.actions).contains_key(name@),
                Some(inv) => {
                    &&& commands_view(self.actions).contains_key(name@)
                    &&& inv.arg@ == replace_all(commands_view(self.actions)[name@], '%', media_json@)
                    &&& inv.shell@ == (if windows {
                        "cmd"@
                    } else {
                        "sh"@
                    })
                    &&& inv.flag@ == (if windows {
                        "/c"@
                    } else {
                        "-c"@
                    })
                },
            },
    {
        match self.command_for(name) {
            None => None,
            Some(command) => {
                let arg = replace_char(command.as_str(), '%', media_json);
                let (shell, flag) = if windows {
                    (owned("cmd"), owned("/c"))
                } else {
                    (owned("sh"), owned("-c"))
                };
                Some(ActionInvocation { shell, flag, arg })
            },
        }
    }
}

} // verus!
