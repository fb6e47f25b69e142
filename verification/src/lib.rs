//! Verified core of the ArcticOJ judge: the sandbox protocol, cgroup and
//! container planning, runtime self-tests, and the web API's decisions.

pub mod text;
pub mod cryo;
pub mod sandbox;
pub mod igloo;
pub mod blizzard;
