//! The shell: its registry of applications, the arguments handed to an
//! application, and what a command line asks for.
use vstd::prelude::*;

use crate::apps::text::{ascii_words, split_words, str_eq, str_views};
use crate::error::SysError;

pub mod i2c;
pub mod ping;
pub mod tcp;
pub mod wifi;

verus! {

/// The arguments an application was started with (the command's name
/// excluded).
pub struct AppContext {
    argv: Vec<String>,
}

impl View for AppContext {
    type V = Seq<Seq<char>>;

    closed spec fn view(&self) -> Seq<Seq<char>> {
        self.argv@.map_values(|s: String| s@)
    }
}

impl AppContext {
    /// Copies the words into a new argument list.
    pub fn new(args: &[&str]) -> (c: Self)
        ensures
            c@ == str_views(args@),
    {
        let mut argv: Vec<String> = Vec::new();
        let mut i: usize = 0;
        while i < args.len()
            invariant
                i <= args@.len(),
                argv@.map_values(|s: String| s@) == str_views(args@.subrange(0, i as int)),
            decreases args@.len() - i,
        {
            let s = args[i].to_owned();
            proof {
                assert(argv@.push(s).map_values(|s: String| s@) =~= argv@.map_values(
                    |s: String| s@,
                ).push(s@));
                assert(str_views(args@.subrange(0, i + 1)) =~= str_views(
                    args@.subrange(0, i as int),
                ).push(args@[i as int]@));
            }
            argv.push(s);
            i += 1;
        }
        assert(args@.subrange(0, args@.len() as int) =~= args@);
        AppContext { argv }
    }

    /// The number of arguments.
    pub fn argc(&self) -> (n: usize)
        ensures
            n == self@.len(),
    {
        self.argv.len()
    }

    /// The argument at `index`, if there is one.
    pub fn arg(&self, index: usize) -> (a: Option<&str>)
        ensures
            index < self@.len() ==> a is Some && a->0@ == self@[index as int],
            index >= self@.len() ==> a is None,
    {
        if index < self.argv.len() {
            Some(self.argv[index].as_str())
        } else {
            None
        }
    }

    /// All arguments, in order.
    pub fn args(&self) -> (v: Vec<&str>)
        ensures
            str_views(v@) == self@,
    {
        let mut v: Vec<&str> = Vec::new();
        let mut i: usize = 0;
        while i < self.argv.len()
            invariant
                i <= self.argv@.len(),
                str_views(v@) == self.argv@.subrange(0, i as int).map_values(|s: String| s@),
            decreases self.argv@.len() - i,
        {
            let a = self.argv[i].as_str();
            proof {
                assert(str_views(v@.push(a)) =~= str_views(v@).push(a@));
                assert(self.argv@.subrange(0, i + 1).map_values(|s: String| s@)
                    =~= self.argv@.subrange(0, i as int).map_values(|s: String| s@).push(
                    self.argv@[i as int]@,
                ));
            }
            v.push(a);
            i += 1;
        }
        assert(self.argv@.subrange(0, self.argv@.len() as int) =~= self.argv@);
        v
    }

    /// Whether there are no arguments.
    pub fn is_empty(&self) -> (r: bool)
        ensures
            r == (self@.len() == 0),
    {
        self.argv.len() == 0
    }
}

/// An application the shell can start: its command name, a line of help,
/// its entry point and the stack and priority of its task.
pub struct ShellApp<E> {
    pub name: &'static str,
    pub help: &'static str,
    pub entry: E,
    pub stack_words: usize,
    pub priority: u8,
}

impl<E> ShellApp<E> {
    pub fn new(name: &'static str, help: &'static str, entry: E, stack_words: usize, priority: u8) -> (a:
        Self)
        ensures
            a.name == name,
            a.help == help,
            a.entry == entry,
            a.stack_words == stack_words,
            a.priority == priority,
    {
        ShellApp { name, help, entry, stack_words, priority }
    }
}

/// Whether one of `apps` is called `name`.
pub open spec fn has_app<E>(apps: Seq<&ShellApp<E>>, name: Seq<char>) -> bool {
    exists|i: int| 0 <= i < apps.len() && (#[trigger] apps[i]).name@ == name
}

/// No two of `apps` share a name.
pub open spec fn names_distinct<E>(apps: Seq<&ShellApp<E>>) -> bool {
    forall|i: int, j: int|
        0 <= i < j < apps.len() ==> (#[trigger] apps[i]).name@ != (#[trigger] apps[j]).name@
}

/// The registry of the shell's applications, in the order they were
/// registered; no two of them share a name.
pub struct AppManager<E: 'static> {
    apps: Vec<&'static ShellApp<E>>,
}

impl<E: 'static> View for AppManager<E> {
    type V = Seq<&'static ShellApp<E>>;

    closed spec fn view(&self) -> Seq<&'static ShellApp<E>> {
        self.apps@
    }
}

/// What a command line asks the shell for.
pub enum ShellAction<E: 'static> {
    /// A blank line.
    Nothing,
    /// The list of commands.
    Help,
    /// A reset of the system.
    Reboot,
    /// The current system tick.
    Tick,
    /// Starting an application with the rest of the line as its arguments.
    Launch(&'static ShellApp<E>, AppContext),
    /// The command names no application.
    NotFound,
}

impl<E: 'static> AppManager<E> {
    #[verifier::type_invariant]
    spec fn registry_inv(self) -> bool {
        names_distinct(self.apps@)
    }

    pub fn new() -> (m: Self)
        ensures
            m@ == Seq::<&'static ShellApp<E>>::empty(),
            names_distinct(m@),
    {
        AppManager { apps: Vec::new() }
    }

    /// Position of the application called `name`, if any.
    fn position(&self, name: &str) -> (r: Option<usize>)
        ensures
            match r {
                Some(i) => i < self@.len() && self@[i as int].name@ == name@,
                None => !has_app(self@, name@),
            },
    {
        let mut i: usize = 0;
        while i < self.apps.len()
            invariant
                i <= self.apps@.len(),
                forall|j: int| 0 <= j < i ==> (#[trigger] self.apps@[j]).name@ != name@,
            decreases self.apps@.len() - i,
        {
            if str_eq(self.apps[i].name, name) {
                return Some(i);
            }
            i += 1;
        }
        None
    }

    /// Adds an application; a second one of the same name is refused.
    pub fn register_app(&mut self, app: &'static ShellApp<E>) -> (r: Result<(), SysError>)
        ensures
            has_app(old(self)@, app.name@) ==> r == Err::<(), SysError>(SysError::AlreadyExists)
                && final(self)@ == old(self)@,
            !has_app(old(self)@, app.name@) ==> r == Ok::<(), SysError>(()) && final(self)@
                == old(self)@.push(app),
            names_distinct(final(self)@),
    {
        proof {
            use_type_invariant(&*self);
        }
        if self.position(app.name).is_some() {
            proof {
                use_type_invariant(&*self);
            }
            return Err(SysError::AlreadyExists);
        }
        let ghost before = self.apps@;
        assert(names_distinct(before.push(app))) by {
            assert forall|i: int, j: int| 0 <= i < j < before.push(app).len() implies (
            #[trigger] before.push(app)[i]).name@ != (#[trigger] before.push(app)[j]).name@ by {
                if j == before.len() {
                    assert(before.push(app)[i] == before[i]);
                } else {
                    assert(before.push(app)[i] == before[i]);
                    assert(before.push(app)[j] == before[j]);
                }
            }
        }
        let mut apps: Vec<&'static ShellApp<E>> = Vec::new();
        std::mem::swap(&mut apps, &mut self.apps);
        apps.push(app);
        self.apps = apps;
        Ok(())
    }

    /// The application called `name`, if one is registered.
    pub fn find(&self, name: &str) -> (r: Option<&'static ShellApp<E>>)
        ensures
            match r {
                Some(a) => a.name@ == name@ && exists|i: int|
                    0 <= i < self@.len() && #[trigger] self@[i] == a,
                None => !has_app(self@, name@),
            },
    {
        match self.position(name) {
            Some(i) => Some(self.apps[i]),
            None => None,
        }
    }

    /// The registered applications, in order.
    pub fn enumerate(&self) -> (v: Vec<&'static ShellApp<E>>)
        ensures
            v@ == self@,
    {
        self.apps.clone()
    }

    /// What `cmd_line` asks for: nothing for a blank line, one of the
    /// built-in commands, or the registered application named by its first
    /// word, started with the remaining words.
    pub fn dispatch(&self, cmd_line: &str) -> (a: ShellAction<E>)
        ensures
            ({
                let w = ascii_words(cmd_line@);
                if w.len() == 0 {
                    a is Nothing
                } else if w[0] == "help"@ {
                    a is Help
                } else if w[0] == "reboot"@ {
                    a is Reboot
                } else if w[0] == "tick"@ {
                    a is Tick
                } else if has_app(self@, w[0]) {
                    a matches ShellAction::Launch(app, ctx) && app.name@ == w[0] && (exists|i: int|
                        0 <= i < self@.len() && #[trigger] self@[i] == app) && ctx@ == w.skip(1)
                } else {
                    a is NotFound
                }
            }),
    {
        let words = split_words(cmd_line);
        if words.len() == 0 {
            return ShellAction::Nothing;
        }
        let cmd = words[0];
        assert(cmd@ == ascii_words(cmd_line@)[0]);
        if str_eq(cmd, "help") {
            ShellAction::Help
        } else if str_eq(cmd, "reboot") {
            ShellAction::Reboot
        } else if str_eq(cmd, "tick") {
            ShellAction::Tick
        } else {
            match self.find(cmd) {
                Some(app) => {
                    let rest = words.as_slice().split_at(1).1;
                    let ctx = AppContext::new(rest);
                    assert(str_views(rest@) =~= str_views(words@).skip(1));
                    ShellAction::Launch(app, ctx)
                },
                None => ShellAction::NotFound,
            }
        }
    }
}

} // verus!
