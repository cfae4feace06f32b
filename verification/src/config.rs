//! The configuration: hooks by name, each with its commands in order.

use crate::error::{ConfigError, ConfigErrorView};
use vstd::prelude::*;

verus! {

/// What runs when a Git hook fires: shell commands, in order. The list may be
/// empty.
#[derive(Debug, Clone, PartialEq, Eq)]
pub struct Hook {
    pub commands: Vec<String>,
}

/// The mathematical value of a configured hook: its name and its commands.
pub struct HookView {
    pub name: Seq<char>,
    pub commands: Seq<Seq<char>>,
}

/// The hooks of a configuration file. No two of them share a name.
#[derive(Debug, PartialEq, Eq)]
pub struct Config {
    names: Vec<String>,
    hooks: Vec<Hook>,
}

/// The names of the hooks of a configuration, in its order.
pub open spec fn hook_names(hooks: Seq<HookView>) -> Seq<Seq<char>> {
    hooks.map_values(|hook: HookView| hook.name)
}

/// Whether a configuration has a hook of the given name.
pub open spec fn has_hook(hooks: Seq<HookView>, name: Seq<char>) -> bool {
    hook_names(hooks).contains(name)
}

/// The commands of the hook of the given name, if the configuration has one.
pub open spec fn commands_of(hooks: Seq<HookView>, name: Seq<char>) -> Option<Seq<Seq<char>>> {
    match hook_names(hooks).index_of_first(name) {
        Some(i) => Some(hooks[i].commands),
        None => None,
    }
}

/// Whether the name at position `j` of a list occurs earlier in it.
pub open spec fn repeats_at(names: Seq<Seq<char>>, j: int) -> bool {
    exists|i: int| 0 <= i < j && names[i] == names[j]
}

/// The hooks that a list of names and commands describes.
pub open spec fn described(hooks: Seq<(String, Hook)>) -> Seq<HookView> {
    Seq::new(
        hooks.len(),
        |i: int| HookView { name: hooks[i].0@, commands: hooks[i].1.commands.deep_view() },
    )
}

/// What the error for a hook name that occurs twice says.
pub open spec fn duplicate_hook_text(name: Seq<char>) -> Seq<char> {
    "duplicate hook name: "@ + name
}

impl View for Config {
    type V = Seq<HookView>;

    closed spec fn view(&self) -> Seq<HookView> {
        Seq::new(
            self.names.len() as nat,
            |i: int| HookView { name: self.names[i]@, commands: self.hooks[i].commands.deep_view() },
        )
    }
}

impl Config {
    #[verifier::type_invariant]
    spec fn well_formed(self) -> bool {
        &&& self.names.len() == self.hooks.len()
        &&& forall|i: int, j: int|
            0 <= i < j < self.names.len() ==> self.names[i]@ != self.names[j]@
    }

    /// A configuration without hooks.
    pub fn new() -> (config: Config)
        ensures
            config@ == Seq::<HookView>::empty(),
    {
        let config = Config { names: Vec::new(), hooks: Vec::new() };
        assert(config@ =~= Seq::<HookView>::empty());
        config
    }

    /// Builds a configuration from hooks and their names. A name that occurs
    /// twice is an error, which names the first name that repeats an earlier
    /// one.
    pub fn from_hooks(hooks: Vec<(String, Hook)>) -> (result: Result<Config, ConfigError>)
        ensures
            result is Ok <==> hook_names(described(hooks@)).no_duplicates(),
            result matches Ok(config) ==> config@ == described(hooks@),
            result matches Err(e) ==> exists|j: int|
                0 <= j < hooks.len() && repeats_at(hook_names(described(hooks@)), j) && (forall|
                    k: int,
                | 0 <= k < j ==> !repeats_at(hook_names(described(hooks@)), k)) && e@
                    == ConfigErrorView::Parse(duplicate_hook_text(hooks[j].0@)),
    {
        let ghost given = hooks@;
        let ghost all = hook_names(described(given));
        let mut config = Config::new();
        let mut pending = hooks;
        let mut rest: Vec<(String, Hook)> = Vec::new();
        // Take the hooks out from the back, so that each is moved, not copied.
        while pending.len() > 0
            invariant
                pending@ + rest@.reverse() == given,
            decreases pending.len(),
        {
            let ghost before = pending@;
            let ghost rest_before = rest@;
            let last = pending.pop().unwrap();
            rest.push(last);
            assert(pending@ + rest@.reverse() =~= before + rest_before.reverse());
        }
        assert(rest@.reverse() =~= given);
        let mut j: usize = 0;
        while rest.len() > 0
            invariant
                j + rest.len() == given.len(),
                given == hooks@,
                all == hook_names(described(given)),
                forall|k: int| 0 <= k < rest.len() ==> rest[k] == given[given.len() - 1 - k],
                config@ == described(given).take(j as int),
                forall|k: int| 0 <= k < j ==> !repeats_at(all, k),
            decreases rest.len(),
        {
            proof {
                use_type_invariant(&config);
            }
            let (name, hook) = rest.pop().unwrap();
            assert(name == given[j as int].0 && hook == given[j as int].1);
            assert(all[j as int] == name@);
            assert(forall|i: int| 0 <= i < j ==> hook_names(config@)[i] == all[i]);
            if config.contains_key(name.as_str()) {
                proof {
                    let i = choose|i: int|
                        0 <= i < hook_names(config@).len() && hook_names(config@)[i] == name@;
                    assert(all[i] == all[j as int]);
                    assert(repeats_at(all, j as int));
                    assert(!all.no_duplicates());
                }
                let mut text = String::from_str("duplicate hook name: ");
                text.append(name.as_str());
                return Err(ConfigError::Parse(text));
            }
            proof {
                assert(!repeats_at(all, j as int)) by {
                    if repeats_at(all, j as int) {
                        let i = choose|i: int| 0 <= i < j && all[i] == all[j as int];
                        assert(hook_names(config@)[i] == name@);
                    }
                }
            }
            config = config.with(name, hook);
            assert(config@ =~= described(given).take(j + 1));
            j += 1;
        }
        proof {
            assert(config@ =~= described(given));
            assert forall|a: int, b: int| 0 <= a < all.len() && 0 <= b < all.len() && a != b implies all[a]
                != all[b] by {
                if a < b {
                    assert(!repeats_at(all, b));
                } else {
                    assert(!repeats_at(all, a));
                }
            }
        }
        Ok(config)
    }

    fn with(self, name: String, hook: Hook) -> (config: Config)
        requires
            !has_hook(self@, name@),
        ensures
            config@ == self@.push(HookView { name: name@, commands: hook.commands.deep_view() }),
    {
        proof {
            use_type_invariant(&self);
        }
        let ghost before = self@;
        let ghost added = HookView { name: name@, commands: hook.commands.deep_view() };
        let Config { names, hooks } = self;
        let mut names = names;
        let mut hooks = hooks;
        assert forall|i: int| 0 <= i < names.len() implies names[i]@ != name@ by {
            assert(hook_names(before)[i] == names[i]@);
        }
        names.push(name);
        hooks.push(hook);
        let config = Config { names, hooks };
        assert(config@ =~= before.push(added));
        config
    }

    /// No two hooks of a configuration share a name.
    pub fn names_are_distinct(&self)
        ensures
            hook_names(self@).no_duplicates(),
    {
        proof {
            use_type_invariant(self);
            let names = hook_names(self@);
            assert forall|i: int, j: int|
                0 <= i < names.len() && 0 <= j < names.len() && i != j implies names[i]
                != names[j] by {
                assert(names[i] == self.names[i]@ && names[j] == self.names[j]@);
            }
        }
    }

    /// The number of hooks.
    pub fn len(&self) -> (n: usize)
        ensures
            n == self@.len(),
    {
        self.names.len()
    }

    /// The name of the hook at a position.
    pub fn name(&self, i: usize) -> (name: &String)
        requires
            i < self@.len(),
        ensures
            name@ == self@[i as int].name,
    {
        &self.names[i]
    }

    /// The commands of the hook at a position.
    pub fn commands(&self, i: usize) -> (commands: &Vec<String>)
        requires
            i < self@.len(),
        ensures
            commands.deep_view() == self@[i as int].commands,
    {
        proof {
            use_type_invariant(self);
        }
        &self.hooks[i].commands
    }

    /// Where the hook of the given name stands, if the configuration has one.
    pub fn position(&self, name: &str) -> (found: Option<usize>)
        ensures
            found is Some <==> has_hook(self@, name@),
            found matches Some(i) ==> hook_names(self@).index_of_first(name@) == Some(i as int),
    {
        let wanted = String::from_str(name);
        let mut i: usize = 0;
        proof {
            hook_names(self@).index_of_first_ensures(name@);
        }
        while i < self.names.len()
            invariant
                i <= self.names.len(),
                self.names.len() == self@.len(),
                wanted@ == name@,
                forall|k: int| 0 <= k < i ==> hook_names(self@)[k] != name@,
                match hook_names(self@).index_of_first(name@) {
                    Some(index) => {
                        &&& 0 <= index < hook_names(self@).len()
                        &&& hook_names(self@)[index] == name@
                        &&& forall|k: int| 0 <= k < index ==> hook_names(self@)[k] != name@
                    },
                    None => !hook_names(self@).contains(name@),
                },
            decreases self.names.len() - i,
        {
            if self.names[i] == wanted {
                assert(hook_names(self@)[i as int] == name@);
                assert(hook_names(self@).contains(name@));
                return Some(i);
            }
            i += 1;
        }
        None
    }

    /// Whether the configuration has a hook of the given name.
    pub fn contains_key(&self, name: &str) -> (found: bool)
        ensures
            found == has_hook(self@, name@),
    {
        self.position(name).is_some()
    }

    /// The commands of the hook of the given name, if the configuration has one.
    pub fn get(&self, name: &str) -> (found: Option<&Vec<String>>)
        ensures
            found is Some <==> has_hook(self@, name@),
            found matches Some(commands) ==> commands_of(self@, name@) == Some(
                commands.deep_view(),
            ),
            found is None ==> commands_of(self@, name@) is None,
    {
        proof {
            hook_names(self@).index_of_first_ensures(name@);
        }
        match self.position(name) {
            Some(i) => Some(self.commands(i)),
            None => None,
        }
    }
}

} // verus!
