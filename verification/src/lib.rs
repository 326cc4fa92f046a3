pub mod bench;
pub mod bench_info;
pub mod bencher;
pub mod duration;
pub mod group;
pub mod measurement;
pub mod report;
pub mod tamer;
pub mod throughput;
