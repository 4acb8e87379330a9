use vstd::prelude::*;

use crate::config::Config;
use crate::outcome::{body_of, Outcome, FAILURE_BODY, LIVENESS_BODY, SUCCESS_BODY};

verus! {

/// The HTTP front: a liveness route and one route per job identifier.
pub struct Server {
    pub config: Config,
}

impl Server {
    pub fn new(config: Config) -> (r: Server)
        ensures
            r.config == config,
    {
        Server { config }
    }

    /// Body of the liveness route.
    pub fn root() -> (r: String)
        ensures
            r@ == LIVENESS_BODY@,
    {
        LIVENESS_BODY.to_owned()
    }

    /// Body of a job route, given what came back on the job's reply channel
    /// (`None`: it was closed without a value).
    pub fn answer(reply: Option<Outcome>) -> (r: String)
        ensures
            r@ == body_of(reply),
    {
        match reply {
            Some(Outcome::Completed { .. }) => SUCCESS_BODY.to_owned(),
            _ => FAILURE_BODY.to_owned(),
        }
    }
}

} // verus!
