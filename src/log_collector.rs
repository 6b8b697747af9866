use vstd::prelude::*;

verus! {

/// Log lines gathered for the presentation layer, drained on read.
#[derive(Clone, Debug)]
pub struct LogCollector {
    pub logs: Vec<String>,
}

impl LogCollector {
    pub fn new() -> (r: LogCollector)
        ensures
            r.logs@.len() == 0,
    {
        LogCollector { logs: Vec::new() }
    }

    /// Appends a line.
    pub fn add(&mut self, message: String)
        ensures
            final(self).logs@ == old(self).logs@.push(message),
    {
        self.logs.push(message);
    }

    /// Takes every gathered line, oldest first; `None` when there is none.
    pub fn get_logs(&mut self) -> (r: Option<Vec<String>>)
        ensures
            old(self).logs@.len() == 0 ==> r is None,
            old(self).logs@.len() > 0 ==> (r matches Some(v) && v@ == old(self).logs@),
            final(self).logs@.len() == 0,
    {
        if self.logs.len() == 0 {
            return None;
        }
        let mut logs: Vec<String> = Vec::new();
        std::mem::swap(&mut logs, &mut self.logs);
        Some(logs)
    }

    /// Drops every gathered line.
    pub fn clear_logs(&mut self)
        ensures
            final(self).logs@.len() == 0,
    {
        self.logs.clear();
    }
}

} // verus!
