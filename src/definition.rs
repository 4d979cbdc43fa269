use vstd::prelude::*;
use crate::error::MultiHostError;

verus! {

/// One supervised process as the configuration describes it. Built once at
/// startup and never changed.
#[derive(Clone, Debug)]
pub struct ProcessDefinition {
    pub name: String,
    pub command: String,
    pub cwd: String,
    pub args: Vec<String>,
    pub auto_start: bool,
}

/// The name given to a process whose record names none.
pub open spec fn name_or_default(name: Option<String>) -> Seq<char> {
    match name {
        Some(n) => n@,
        None => "unknown"@,
    }
}

/// The error that a record with these fields is refused with, if any:
/// the executable, then the working directory, then each argument must be text.
pub open spec fn record_error(
    exe: Option<String>,
    cwd: Option<String>,
    args: Seq<Option<String>>,
) -> Option<Seq<char>> {
    if exe is None {
        Some("process should have exe"@)
    } else if cwd is None {
        Some("process should have cwd"@)
    } else if exists|i: int| 0 <= i < args.len() && args[i] is None {
        Some("process should have args"@)
    } else {
        None
    }
}

impl ProcessDefinition {
    /// A copy of the definition, field for field.
    pub fn duplicate(&self) -> (r: ProcessDefinition)
        ensures
            r.name@ == self.name@,
            r.command@ == self.command@,
            r.cwd@ == self.cwd@,
            r.args@ == self.args@,
            r.auto_start == self.auto_start,
    {
        let args = self.args.clone();
        proof {
            assert(args@ =~= self.args@);
        }
        ProcessDefinition {
            name: self.name.clone(),
            command: self.command.clone(),
            cwd: self.cwd.clone(),
            args,
            auto_start: self.auto_start,
        }
    }

    /// Builds a definition from the fields of one configuration record, each
    /// `None` where the record lacks it or holds something other than the
    /// expected kind of value. A missing name becomes "unknown" and a missing
    /// auto-start flag `false`; a missing executable, working directory or a
    /// non-text argument is refused.
    pub fn from_fields(
        name: Option<String>,
        exe: Option<String>,
        cwd: Option<String>,
        args: Vec<Option<String>>,
        auto_start: Option<bool>,
    ) -> (r: Result<ProcessDefinition, MultiHostError>)
        ensures
            r is Ok <==> record_error(exe, cwd, args@) is None,
            r is Err ==> r->Err_0 is Simple && r->Err_0->Simple_0@ == record_error(
                exe,
                cwd,
                args@,
            )->Some_0,
            r is Ok ==> {
                let d = r->Ok_0;
                &&& d.name@ == name_or_default(name)
                &&& d.command@ == exe->Some_0@
                &&& d.cwd@ == cwd->Some_0@
                &&& d.args@.len() == args@.len()
                &&& forall|i: int| 0 <= i < args@.len() ==> d.args@[i]@ == args@[i]->Some_0@
                &&& d.auto_start == (auto_start == Some(true))
            },
    {
        let command = match exe {
            Some(e) => e,
            None => {
                return Err(MultiHostError::Simple(String::from_str("process should have exe")));
            },
        };
        let dir = match cwd {
            Some(c) => c,
            None => {
                return Err(MultiHostError::Simple(String::from_str("process should have cwd")));
            },
        };
        let mut list: Vec<String> = Vec::new();
        let mut i: usize = 0;
        while i < args.len()
            invariant
                exe == Some(command),
                cwd == Some(dir),
                i <= args@.len(),
                list@.len() == i,
                forall|k: int| 0 <= k < i ==> args@[k] is Some && list@[k]@ == args@[k]->Some_0@,
            decreases args@.len() - i,
        {
            match &args[i] {
                Some(a) => list.push(a.clone()),
                None => {
                    assert(args@[i as int] is None);
                    return Err(MultiHostError::Simple(String::from_str("process should have args")));
                },
            }
            i = i + 1;
        }
        let name = match name {
            Some(n) => n,
            None => String::from_str("unknown"),
        };
        let auto_start = match auto_start {
            Some(b) => b,
            None => false,
        };
        Ok(ProcessDefinition { name, command, cwd: dir, args: list, auto_start })
    }
}

} // verus!
