use vstd::prelude::*;

use crate::throughput::Throughput;

verus! {

/// What one benchmark measures: its identity, its throughput kind, and the
/// rendered values of its parameters, in the order the owning group declares
/// their names.
pub struct BenchInfo {
    pub id: String,
    pub throughput: Throughput,
    pub params: Vec<String>,
}

impl BenchInfo {
    pub fn new(id: String, throughput: Throughput) -> (info: BenchInfo)
        ensures
            info.id@ == id@,
            info.throughput == throughput,
            info.params@.len() == 0,
    {
        BenchInfo { id, throughput, params: Vec::new() }
    }

    pub fn with_params(self, params: Vec<String>) -> (info: BenchInfo)
        ensures
            info.id@ == self.id@,
            info.throughput == self.throughput,
            info.params == params,
    {
        BenchInfo { params, ..self }
    }
}

} // verus!
