use vstd::prelude::*;
use crate::paging::{page_window, spec_page_window};
use vstd::std_specs::convert::FromSpecImpl;
use crate::text::same_text;

verus! {

/// How serious a log entry is.
#[derive(Debug, Clone, Copy, PartialEq, Eq, Structural)]
pub enum LogLevel {
    Debug,
    Info,
    Warning,
    Error,
    Critical,
    Event,
}

impl LogLevel {
    pub open spec fn spec_name(self) -> Seq<char> {
        match self {
            LogLevel::Debug => "debug"@,
            LogLevel::Info => "info"@,
            LogLevel::Warning => "warning"@,
            LogLevel::Error => "error"@,
            LogLevel::Critical => "critical"@,
            LogLevel::Event => "event"@,
        }
    }

    /// The level that a stored name stands for; `Info` where the name is not
    /// known.
    pub open spec fn spec_from_name(name: Seq<char>) -> LogLevel {
        if name == "debug"@ {
            LogLevel::Debug
        } else if name == "warning"@ {
            LogLevel::Warning
        } else if name == "error"@ {
            LogLevel::Error
        } else if name == "critical"@ {
            LogLevel::Critical
        } else if name == "event"@ {
            LogLevel::Event
        } else {
            LogLevel::Info
        }
    }

    pub fn as_str(&self) -> (name: &'static str)
        ensures
            name@ == self.spec_name(),
    {
        match self {
            LogLevel::Debug => "debug",
            LogLevel::Info => "info",
            LogLevel::Warning => "warning",
            LogLevel::Error => "error",
            LogLevel::Critical => "critical",
            LogLevel::Event => "event",
        }
    }

    pub fn to_string(&self) -> (name: String)
        ensures
            name@ == self.spec_name(),
    {
        self.as_str().to_owned()
    }

    pub fn from_name(name: &str) -> (level: LogLevel)
        ensures
            level == LogLevel::spec_from_name(name@),
    {
        if same_text(name, "debug") {
            LogLevel::Debug
        } else if same_text(name, "warning") {
            LogLevel::Warning
        } else if same_text(name, "error") {
            LogLevel::Error
        } else if same_text(name, "critical") {
            LogLevel::Critical
        } else if same_text(name, "event") {
            LogLevel::Event
        } else {
            LogLevel::Info
        }
    }
}

impl From<String> for LogLevel {
    fn from(s: String) -> (level: LogLevel) {
        LogLevel::from_name(s.as_str())
    }
}

impl FromSpecImpl<String> for LogLevel {
    open spec fn obeys_from_spec() -> bool {
        true
    }

    open spec fn from_spec(s: String) -> LogLevel {
        LogLevel::spec_from_name(s@)
    }
}

/// A level is read back from its own name.
pub proof fn lemma_log_level_round_trip(level: LogLevel)
    ensures
        LogLevel::spec_from_name(level.spec_name()) == level,
{
    reveal_strlit("debug");
    reveal_strlit("info");
    reveal_strlit("warning");
    reveal_strlit("error");
    reveal_strlit("critical");
    reveal_strlit("event");
    assert("debug"@.len() == 5 && "info"@.len() == 4 && "warning"@.len() == 7);
    assert("error"@.len() == 5 && "critical"@.len() == 8 && "event"@.len() == 5);
    assert("debug"@[0] == 'd' && "error"@[1] == 'r' && "event"@[1] == 'v');
}

/// One entry of the system log. `id` is the entry's identifier as a 128-bit
/// number, `metadata` a JSON text, `created_at` seconds since the epoch.
#[derive(Debug, Clone, PartialEq, Eq)]
pub struct Log {
    pub id: u128,
    pub level: LogLevel,
    pub message: String,
    pub source: Option<String>,
    pub metadata: Option<String>,
    pub created_at: Option<i64>,
}

/// The filter of a log listing. `from` and `to` are seconds since the epoch.
#[derive(Debug, Clone, PartialEq, Eq)]
pub struct ListLogsQuery {
    pub level: Option<LogLevel>,
    pub source: Option<String>,
    pub from: Option<i64>,
    pub to: Option<i64>,
    pub page: Option<i64>,
    pub size: Option<i64>,
}

impl ListLogsQuery {
    /// The page asked for: the first where none is named.
    pub open spec fn spec_page(self) -> int {
        match self.page {
            Some(page) => page as int,
            None => 1,
        }
    }

    /// The size of a page: ten rows where none is named.
    pub open spec fn spec_size(self) -> int {
        match self.size {
            Some(size) => size as int,
            None => 10,
        }
    }

    /// The rows to read: how many, and how many to skip.
    pub fn window(&self) -> (window: Option<(i64, i64)>)
        ensures
            match window {
                Some(found) => (found.0 as int, found.1 as int) == spec_page_window(
                    self.spec_page(),
                    self.spec_size(),
                ),
                None => !(i64::MIN <= spec_page_window(self.spec_page(), self.spec_size()).1
                    <= i64::MAX),
            },
    {
        let size = match self.size {
            Some(size) => size,
            None => 10,
        };
        let page = match self.page {
            Some(page) => page,
            None => 1,
        };
        page_window(page, size)
    }
}

} // verus!
