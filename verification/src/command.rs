use vstd::prelude::*;
use vstd::string::StringExecFns;

use std::fmt::Debug;

use crate::err::DefaultErr;
use crate::err::XSCommandErr;
use crate::render::joined;
use crate::render::lemma_joined_push;

verus! {

/// The view of an optional borrowed string.
pub open spec fn opt_view(o: Option<&str>) -> Option<Seq<char>> {
    match o {
        Some(s) => Some(s@),
        None => None,
    }
}

/// The views of a sequence of borrowed strings, in order.
pub open spec fn strs_view(strs: Seq<&str>) -> Seq<Seq<char>> {
    strs.map_values(|s: &str| s@)
}

/// Command used in external-tool development: one invocation of an external
/// program, composed from a program path, an ordered argument list and an
/// optional working directory, then run once.
///
/// Every concrete wrapper for a specific tool implements this contract, so
/// that callers can compose, inspect, render and run heterogeneous tools
/// uniformly. The error type is any [`XSCommandErr`].
pub trait XSCommand<'a, T: XSCommandErr + Debug>: Sized {
    /// The program path the command is bound to. The default is only a
    /// placeholder: a conforming implementation defines its own, as the
    /// method contracts below constrain it.
    open spec fn path(&self) -> Seq<char> {
        Seq::empty()
    }

    /// The argument list, in the order it is passed to the program. The
    /// default is only a placeholder, as for `path`.
    open spec fn args(&self) -> Seq<Seq<char>> {
        Seq::empty()
    }

    /// The recorded working directory; `None` inherits the caller's. The
    /// default is only a placeholder, as for `path`.
    open spec fn workdir(&self) -> Option<Seq<char>> {
        None
    }

    /// Create a command bound to a program path, with no arguments and the
    /// caller's working directory. The path is not validated here.
    fn new(path: &str) -> (r: Self)
        ensures
            r.path() == path@,
            r.args() == Seq::<Seq<char>>::empty(),
            r.workdir() is None,
    ;

    /// Replace the whole argument list; prior arguments are discarded.
    fn set_args(&mut self, args: Vec<&'a str>)
        ensures
            final(self).args() == strs_view(args@),
            final(self).path() == old(self).path(),
            final(self).workdir() == old(self).workdir(),
    ;

    /// Read the argument list back, exactly as most recently set.
    fn get_args(&self) -> (r: Vec<&str>)
        ensures
            strs_view(r@) == self.args(),
    ;

    /// Record the working directory the program should run in. `None` always
    /// succeeds and means the caller's current directory is inherited. A
    /// failure carries code 1 and leaves the command unchanged.
    fn set_workdir(&mut self, work_dir: Option<&'a str>) -> (r: Result<(), T>)
        ensures
            final(self).path() == old(self).path(),
            final(self).args() == old(self).args(),
            work_dir is None ==> r is Ok,
            r is Ok ==> final(self).workdir() == opt_view(work_dir),
            r matches Err(e) ==> e.spec_err_code() == 1
                && final(self).workdir() == old(self).workdir(),
    ;

    /// Excute the command and return the exit code the program reported.
    /// Failures carry a non-zero error code; the composed command itself is
    /// not changed by running it.
    fn excute(&mut self, stdout: Option<&str>, stderr: Option<&str>) -> (r: Result<i32, T>)
        ensures
            final(self).path() == old(self).path(),
            final(self).args() == old(self).args(),
            final(self).workdir() == old(self).workdir(),
            r matches Err(e) ==> e.spec_err_code() != 0,
    ;

    /// A human-readable rendering of the composed command: the path and the
    /// arguments in order, separated by single spaces. The working directory
    /// and redirection targets are execution context, not command text, and
    /// take no part.
    fn to_string(&self) -> (r: String)
        ensures
            r@ == joined(seq![self.path()] + self.args()),
    ;
}

/// What one attempted run of an external program was observed to do.
///
/// The embedding application performs the filesystem and process work and
/// reports it as one of these events; [`excute_outcome`] decides what the
/// caller of `excute` sees.
#[derive(Clone, Copy, Debug, PartialEq, Eq, Structural)]
pub enum RunEvent {
    /// The stdout redirection target could not be created or opened.
    StdoutDenied,
    /// The stderr redirection target could not be created or opened.
    StderrDenied,
    /// The program ran and reported an exit code.
    Exited(i32),
    /// The program terminated without a reportable exit code.
    NoExitCode,
}

/// The outcome of `excute` for one run event.
pub open spec fn spec_excute_outcome(event: RunEvent) -> Result<i32, DefaultErr> {
    match event {
        RunEvent::StdoutDenied => Err(DefaultErr::ExcuteErr(2)),
        RunEvent::StderrDenied => Err(DefaultErr::ExcuteErr(3)),
        RunEvent::Exited(code) => Ok(code),
        RunEvent::NoExitCode => Err(DefaultErr::ExcuteErr(4)),
    }
}

/// Decide the outcome of one run: a failure to create the stdout target is
/// code 2 and one for the stderr target code 3; termination without an exit
/// code is code 4; a reported exit code is returned as it is, non-zero ones
/// included (this crate's documented policy for its default outcome rule).
pub fn excute_outcome(event: RunEvent) -> (r: Result<i32, DefaultErr>)
    ensures
        r == spec_excute_outcome(event),
        event is StdoutDenied ==> (r matches Err(e) && e.spec_err_code() == 2),
        event is StderrDenied ==> (r matches Err(e) && e.spec_err_code() == 3),
        event is NoExitCode ==> (r matches Err(e) && e.spec_err_code() == 4),
        event matches RunEvent::Exited(code) ==> r == Ok::<i32, DefaultErr>(code),
{
    match event {
        RunEvent::StdoutDenied => Err(DefaultErr::ExcuteErr(2)),
        RunEvent::StderrDenied => Err(DefaultErr::ExcuteErr(3)),
        RunEvent::Exited(code) => Ok(code),
        RunEvent::NoExitCode => Err(DefaultErr::ExcuteErr(4)),
    }
}

/// A verified command-line value: the composed state that a concrete command
/// wrapper carries. It owns the program path and borrows the arguments and
/// the working directory for its own lifetime.
pub struct CommandLine<'a> {
    path: String,
    args: Vec<&'a str>,
    workdir: Option<&'a str>,
}

impl<'a> CommandLine<'a> {
    /// The program path.
    pub closed spec fn path(&self) -> Seq<char> {
        self.path@
    }

    /// The argument views, in order.
    pub closed spec fn args(&self) -> Seq<Seq<char>> {
        strs_view(self.args@)
    }

    /// The recorded working directory view; `None` inherits the caller's.
    pub closed spec fn workdir(&self) -> Option<Seq<char>> {
        opt_view(self.workdir)
    }

    /// Create a command line bound to a program path, with no arguments and
    /// the caller's working directory.
    pub fn new(path: &str) -> (r: Self)
        ensures
            r.path() == path@,
            r.args() == Seq::<Seq<char>>::empty(),
            r.workdir() is None,
    {
        let r = CommandLine { path: path.to_owned(), args: Vec::new(), workdir: None };
        proof {
            assert(r.args() =~= Seq::<Seq<char>>::empty());
        }
        r
    }

    /// Replace the whole argument list; prior arguments are discarded.
    pub fn set_args(&mut self, args: Vec<&'a str>)
        ensures
            final(self).args() == strs_view(args@),
            final(self).path() == old(self).path(),
            final(self).workdir() == old(self).workdir(),
    {
        self.args = args;
    }

    /// Read the argument list back, exactly as most recently set.
    pub fn get_args(&self) -> (r: Vec<&str>)
        ensures
            strs_view(r@) == self.args(),
    {
        let mut v: Vec<&str> = Vec::new();
        let mut i: usize = 0;
        while i < self.args.len()
            invariant
                i <= self.args@.len(),
                v@ == self.args@.take(i as int),
            decreases self.args@.len() - i,
        {
            v.push(self.args[i]);
            i += 1;
            proof {
                assert(v@ =~= self.args@.take(i as int));
            }
        }
        proof {
            assert(self.args@.take(i as int) =~= self.args@);
        }
        v
    }

    /// Record the working directory. `None` always succeeds and means the
    /// caller's current directory is inherited. `Some` is recorded only when
    /// the embedding application has validated the directory (`dir_ok`);
    /// otherwise the failure carries code 1 and the command line is left
    /// exactly as it was.
    pub fn set_workdir(&mut self, work_dir: Option<&'a str>, dir_ok: bool) -> (r: Result<
        (),
        DefaultErr,
    >)
        ensures
            final(self).path() == old(self).path(),
            final(self).args() == old(self).args(),
            r is Ok <==> !(work_dir is Some && !dir_ok),
            r is Ok ==> final(self).workdir() == opt_view(work_dir),
            r matches Err(e) ==> e == DefaultErr::SetWorkDirErr && e.spec_err_code() == 1
                && *final(self) == *old(self),
    {
        match work_dir {
            None => {
                self.workdir = None;
                Ok(())
            },
            Some(dir) => {
                if dir_ok {
                    self.workdir = Some(dir);
                    Ok(())
                } else {
                    Err(DefaultErr::SetWorkDirErr)
                }
            },
        }
    }

    /// The program path, for the embedding application to spawn from.
    pub fn get_path(&self) -> (r: &str)
        ensures
            r@ == self.path(),
    {
        self.path.as_str()
    }

    /// The recorded working directory, if any.
    pub fn get_workdir(&self) -> (r: Option<&str>)
        ensures
            opt_view(r) == self.workdir(),
    {
        self.workdir
    }

    /// A human-readable rendering of the composed command: the path and the
    /// arguments in order, separated by single spaces. The working directory
    /// and redirection targets take no part.
    pub fn to_string(&self) -> (r: String)
        ensures
            r@ == joined(seq![self.path()] + self.args()),
    {
        let ghost tokens = seq![self.path()] + self.args();
        let mut line = self.path.clone();
        proof {
            assert(tokens.take(1) =~= seq![self.path()]);
        }
        let mut i: usize = 0;
        while i < self.args.len()
            invariant
                i <= self.args@.len(),
                tokens == seq![self.path()] + self.args(),
                tokens.len() == 1 + self.args@.len(),
                line@ == joined(tokens.take(i as int + 1)),
            decreases self.args@.len() - i,
        {
            line.append(" ");
            line.append(self.args[i]);
            proof {
                reveal_strlit(" ");
                assert(" "@ =~= seq![' ']);
                lemma_joined_push(tokens.take(i as int + 1), tokens[i as int + 1]);
                assert(tokens.take(i as int + 1).push(tokens[i as int + 1]) =~= tokens.take(
                    i as int + 2,
                ));
                assert(tokens[i as int + 1] == self.args@[i as int]@);
                assert(line@ == joined(tokens.take(i as int + 2)));
            }
            i += 1;
        }
        proof {
            assert(tokens.take(tokens.len() as int) =~= tokens);
        }
        line
    }
}

} // verus!
