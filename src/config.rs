use vstd::prelude::*;

verus! {

pub struct DatabaseConfiguration {
    pub url: String,
}

/// Limits of the executor; the memory ceiling is a number of bytes.
pub struct ExecutorConfiguration {
    pub concurrent_limit: usize,
    pub memory_limit: u64,
}

pub struct ServerConfiguration {
    pub address: String,
    pub secret_key: String,
}

/// Where the problems' fixture directories and `info.toml` live.
pub struct ProblemsConfiguration {
    pub dir: String,
}

pub struct Configuration {
    pub database: DatabaseConfiguration,
    pub executor: ExecutorConfiguration,
    pub server: ServerConfiguration,
    pub problems: ProblemsConfiguration,
}

impl Configuration {
    /// A configuration the executor can run with: at least one permit.
    pub open spec fn wf(&self) -> bool {
        self.executor.concurrent_limit > 0
    }

    pub fn is_valid(&self) -> (r: bool)
        ensures
            r == self.wf(),
    {
        self.executor.concurrent_limit > 0
    }
}

/// Wake signal sent by the request handler: pending work may exist. The id
/// is informative only; the dispatcher always rescans the store.
pub struct Task {
    pub id: i64,
}

} // verus!
