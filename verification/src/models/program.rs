use vstd::prelude::*;
use crate::paging::{page_window, spec_page_window};
use vstd::std_specs::convert::FromSpecImpl;
use crate::text::{lowercase, same_text, to_lowercase};

verus! {

/// Where a program stands between upload and run.
#[derive(Debug, Clone, Copy, PartialEq, Eq, Structural)]
pub enum ProgramStatus {
    Pending,
    Compiling,
    Compiled,
    Failed,
    Running,
    Stopped,
}

impl ProgramStatus {
    pub open spec fn spec_name(self) -> Seq<char> {
        match self {
            ProgramStatus::Pending => "pending"@,
            ProgramStatus::Compiling => "compiling"@,
            ProgramStatus::Compiled => "compiled"@,
            ProgramStatus::Failed => "failed"@,
            ProgramStatus::Running => "running"@,
            ProgramStatus::Stopped => "stopped"@,
        }
    }

    /// The status that a lower-case name stands for; `Pending` where the name
    /// is not known.
    pub open spec fn spec_from_lowercase(name: Seq<char>) -> ProgramStatus {
        if name == "compiling"@ {
            ProgramStatus::Compiling
        } else if name == "compiled"@ {
            ProgramStatus::Compiled
        } else if name == "failed"@ {
            ProgramStatus::Failed
        } else if name == "running"@ {
            ProgramStatus::Running
        } else if name == "stopped"@ {
            ProgramStatus::Stopped
        } else {
            ProgramStatus::Pending
        }
    }

    pub fn as_str(&self) -> (name: &'static str)
        ensures
            name@ == self.spec_name(),
    {
        match self {
            ProgramStatus::Pending => "pending",
            ProgramStatus::Compiling => "compiling",
            ProgramStatus::Compiled => "compiled",
            ProgramStatus::Failed => "failed",
            ProgramStatus::Running => "running",
            ProgramStatus::Stopped => "stopped",
        }
    }

    pub fn to_string(&self) -> (name: String)
        ensures
            name@ == self.spec_name(),
    {
        self.as_str().to_owned()
    }

    /// Reads a status from a name that is already in lower case.
    pub fn from_lowercase(name: &str) -> (status: ProgramStatus)
        ensures
            status == ProgramStatus::spec_from_lowercase(name@),
    {
        if same_text(name, "compiling") {
            ProgramStatus::Compiling
        } else if same_text(name, "compiled") {
            ProgramStatus::Compiled
        } else if same_text(name, "failed") {
            ProgramStatus::Failed
        } else if same_text(name, "running") {
            ProgramStatus::Running
        } else if same_text(name, "stopped") {
            ProgramStatus::Stopped
        } else {
            ProgramStatus::Pending
        }
    }
}

impl From<String> for ProgramStatus {
    /// Reads a status from its name in any mix of upper and lower case.
    fn from(value: String) -> (status: ProgramStatus) {
        let lower = to_lowercase(value.as_str());
        ProgramStatus::from_lowercase(lower.as_str())
    }
}

impl FromSpecImpl<String> for ProgramStatus {
    open spec fn obeys_from_spec() -> bool {
        true
    }

    open spec fn from_spec(value: String) -> ProgramStatus {
        ProgramStatus::spec_from_lowercase(lowercase(value@))
    }
}

/// A status is read back from its own name.
pub proof fn lemma_program_status_round_trip(status: ProgramStatus)
    ensures
        ProgramStatus::spec_from_lowercase(status.spec_name()) == status,
{
    reveal_strlit("pending");
    reveal_strlit("compiling");
    reveal_strlit("compiled");
    reveal_strlit("failed");
    reveal_strlit("running");
    reveal_strlit("stopped");
    assert("pending"@.len() == 7 && "compiling"@.len() == 9 && "compiled"@.len() == 8);
    assert("failed"@.len() == 6 && "running"@.len() == 7 && "stopped"@.len() == 7);
    assert("pending"@[0] == 'p' && "running"@[0] == 'r' && "stopped"@[0] == 's');
}

/// The outcome of a compilation. `time` is seconds since the epoch.
#[derive(Debug, Clone, PartialEq, Eq)]
pub struct ProgramCompileResponse {
    pub status: ProgramStatus,
    pub time: i64,
    pub error_file: Option<String>,
    pub error_type: Option<String>,
    pub error_line: Option<i32>,
    pub error_message: Option<String>,
    pub error_suggestions: Option<String>,
}

/// One step of a running program, as it is pushed to the watching client.
/// `id` is the program's identifier, `timestamp` seconds since the epoch.
#[derive(Debug, Clone, PartialEq, Eq)]
pub struct ProgramExecution {
    pub id: u128,
    pub line: i32,
    pub input: Option<String>,
    pub output: Option<String>,
    pub error: Option<String>,
    pub timestamp: i64,
}

#[derive(Debug, Clone, PartialEq, Eq)]
pub struct ListProgramQuery {
    pub search: Option<String>,
    pub page: Option<i64>,
    pub size: Option<i64>,
    pub sort: Option<i8>,
}

impl ListProgramQuery {
    /// The page asked for: the first where none is named.
    pub open spec fn spec_page(self) -> int {
        match self.page {
            Some(page) => page as int,
            None => 1,
        }
    }

    /// The size of a page: ten rows where none is named.
    pub open spec fn spec_size(self) -> int {
        match self.size {
            Some(size) => size as int,
            None => 10,
        }
    }

    /// The rows to read: how many, and how many to skip.
    pub fn window(&self) -> (window: Option<(i64, i64)>)
        ensures
            match window {
                Some(found) => (found.0 as int, found.1 as int) == spec_page_window(
                    self.spec_page(),
                    self.spec_size(),
                ),
                None => !(i64::MIN <= spec_page_window(self.spec_page(), self.spec_size()).1
                    <= i64::MAX),
            },
    {
        let size = match self.size {
            Some(size) => size,
            None => 10,
        };
        let page = match self.page {
            Some(page) => page,
            None => 1,
        };
        page_window(page, size)
    }
}

/// A program that a user uploaded. `metadata` is a JSON text.
#[derive(Debug, Clone, PartialEq, Eq)]
pub struct Program {
    pub id: u128,
    pub user_id: u128,
    pub name: String,
    pub description: Option<String>,
    pub source_code: String,
    pub compiled_code: Option<String>,
    pub status: ProgramStatus,
    pub metadata: Option<String>,
    pub is_active: bool,
    pub created_at: Option<i64>,
    pub updated_at: Option<i64>,
}

#[derive(Debug, Clone, PartialEq, Eq)]
pub struct CreateProgramRequest {
    pub name: String,
    pub user_id: u128,
    pub description: Option<String>,
    pub source_code: String,
    pub status: ProgramStatus,
    pub metadata: Option<String>,
    pub is_active: bool,
}

#[derive(Debug, Clone, PartialEq, Eq)]
pub struct ListProgramResponse {
    pub id: u128,
    pub name: String,
    pub description: Option<String>,
    pub is_active: bool,
    pub status: ProgramStatus,
    pub created_at: Option<i64>,
    pub updated_at: Option<i64>,
}

} // verus!
