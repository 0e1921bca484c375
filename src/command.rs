//! A command description and the builder that generation gives it, written out.
use vstd::prelude::*;
use crate::record::BuildError;

verus! {

/// How to run a program.
#[derive(Debug, PartialEq, Eq)]
pub struct ACommand {
    pub executable: String,
    pub args: Vec<String>,
    pub env: Vec<String>,
    pub current_dir: String,
    pub hello: Option<String>,
}

/// Stages the fields of an [`ACommand`]; every field is stored as optional,
/// the optional field `hello` without a second wrapper.
pub struct ACommandBuilder {
    pub executable: Option<String>,
    pub args: Option<Vec<String>>,
    pub env: Option<Vec<String>>,
    pub current_dir: Option<String>,
    pub hello: Option<String>,
}

/// The name of the first required field, in declaration order, that `b` has
/// not staged.
pub open spec fn first_unset(b: ACommandBuilder) -> Option<Seq<char>> {
    if b.executable is None {
        Some("executable"@)
    } else if b.args is None {
        Some("args"@)
    } else if b.env is None {
        Some("env"@)
    } else if b.current_dir is None {
        Some("current_dir"@)
    } else {
        None
    }
}

/// `c` holds exactly the values staged in `b`.
pub open spec fn assembled_from(b: ACommandBuilder, c: ACommand) -> bool {
    &&& b.executable == Some(c.executable)
    &&& b.args is Some && b.args->0@ == c.args@
    &&& b.env is Some && b.env->0@ == c.env@
    &&& b.current_dir == Some(c.current_dir)
    &&& b.hello == c.hello
}

/// A copy of a list of strings.
fn copy_list(v: &Vec<String>) -> (r: Vec<String>)
    ensures
        r@ == v@,
{
    let r = v.clone();
    assert(r@ =~= v@);
    r
}

/// A copy of a string.
fn copy_text(s: &String) -> (r: String)
    ensures
        r == *s,
{
    s.clone()
}

impl ACommand {
    /// A builder with every field unset.
    pub fn builder() -> (r: ACommandBuilder)
        ensures
            r.executable is None,
            r.args is None,
            r.env is None,
            r.current_dir is None,
            r.hello is None,
    {
        ACommandBuilder { executable: None, args: None, env: None, current_dir: None, hello: None }
    }
}

impl ACommandBuilder {
    /// Stages the executable.
    pub fn executable(&mut self, executable: String) -> (r: &mut Self)
        ensures
            *r == (ACommandBuilder { executable: Some(executable), ..*old(self) }),
            *final(self) == *final(r),
    {
        self.executable = Some(executable);
        self
    }

    /// Stages the arguments.
    pub fn args(&mut self, args: Vec<String>) -> (r: &mut Self)
        ensures
            *r == (ACommandBuilder { args: Some(args), ..*old(self) }),
            *final(self) == *final(r),
    {
        self.args = Some(args);
        self
    }

    /// Stages the environment.
    pub fn env(&mut self, env: Vec<String>) -> (r: &mut Self)
        ensures
            *r == (ACommandBuilder { env: Some(env), ..*old(self) }),
            *final(self) == *final(r),
    {
        self.env = Some(env);
        self
    }

    /// Stages the working directory.
    pub fn current_dir(&mut self, current_dir: String) -> (r: &mut Self)
        ensures
            *r == (ACommandBuilder { current_dir: Some(current_dir), ..*old(self) }),
            *final(self) == *final(r),
    {
        self.current_dir = Some(current_dir);
        self
    }

    /// Stages the greeting, given as a bare value.
    pub fn hello(&mut self, hello: String) -> (r: &mut Self)
        ensures
            *r == (ACommandBuilder { hello: Some(hello), ..*old(self) }),
            *final(self) == *final(r),
    {
        self.hello = Some(hello);
        self
    }

    /// The command made of the staged values, or the first required field
    /// that is unset. The staged values stay as they are.
    pub fn build(&self) -> (r: Result<ACommand, BuildError>)
        ensures
            first_unset(*self) is Some ==> (r matches Err(BuildError::MissingField(n)) && n@
                == first_unset(*self)->0),
            first_unset(*self) is None ==> (r matches Ok(c) && assembled_from(*self, c)),
    {
        let executable = match &self.executable {
            Some(v) => copy_text(v),
            None => return Err(BuildError::MissingField(String::from_str("executable"))),
        };
        let args = match &self.args {
            Some(v) => copy_list(v),
            None => return Err(BuildError::MissingField(String::from_str("args"))),
        };
        let env = match &self.env {
            Some(v) => copy_list(v),
            None => return Err(BuildError::MissingField(String::from_str("env"))),
        };
        let current_dir = match &self.current_dir {
            Some(v) => copy_text(v),
            None => return Err(BuildError::MissingField(String::from_str("current_dir"))),
        };
        let hello = match &self.hello {
            Some(v) => Some(copy_text(v)),
            None => None,
        };
        Ok(ACommand { executable, args, env, current_dir, hello })
    }
}

} // verus!
