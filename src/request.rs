use vstd::prelude::*;

verus! {

/// Why a request was refused before any round ran.
#[derive(Debug, Clone, Copy, PartialEq, Eq, Structural)]
pub enum RequestError {
    /// The lower bound is not strictly below the upper bound.
    BoundsOrder,
    /// One of the bounds is zero.
    ZeroBound,
    /// The largest worker count asked for is zero.
    ZeroWorkers,
    /// The sample budget is zero.
    ZeroSamples,
}

/// One integration job: the interval, the sample budget, the largest
/// worker count and whether every count from one upward is measured.
#[derive(Debug, Clone, Copy, PartialEq, Eq, Structural)]
pub struct IntegrationRequest {
    pub lower_bound: i32,
    pub upper_bound: i32,
    pub total_samples: usize,
    pub max_workers: usize,
    pub profile: bool,
}

/// The error that `IntegrationRequest::new` reports for these values, if any.
pub open spec fn request_error(
    lower_bound: i32,
    upper_bound: i32,
    total_samples: usize,
    max_workers: usize,
) -> Option<RequestError> {
    if lower_bound >= upper_bound {
        Some(RequestError::BoundsOrder)
    } else if lower_bound == 0 || upper_bound == 0 {
        Some(RequestError::ZeroBound)
    } else if max_workers == 0 {
        Some(RequestError::ZeroWorkers)
    } else if total_samples == 0 {
        Some(RequestError::ZeroSamples)
    } else {
        None
    }
}

impl IntegrationRequest {
    /// The invariant every accepted request holds.
    pub open spec fn wf(&self) -> bool {
        request_error(self.lower_bound, self.upper_bound, self.total_samples, self.max_workers)
            is None
    }

    /// Checks the values and builds the request, or names the first rule broken.
    pub fn new(
        lower_bound: i32,
        upper_bound: i32,
        total_samples: usize,
        max_workers: usize,
        profile: bool,
    ) -> (r: Result<IntegrationRequest, RequestError>)
        ensures
            match request_error(lower_bound, upper_bound, total_samples, max_workers) {
                Some(e) => r == Err::<IntegrationRequest, RequestError>(e),
                None => r == Ok::<IntegrationRequest, RequestError>(
                    (IntegrationRequest {
                        lower_bound,
                        upper_bound,
                        total_samples,
                        max_workers,
                        profile,
                    }),
                ),
            },
            r is Ok ==> r->Ok_0.wf(),
    {
        if lower_bound >= upper_bound {
            Err(RequestError::BoundsOrder)
        } else if lower_bound == 0 || upper_bound == 0 {
            Err(RequestError::ZeroBound)
        } else if max_workers == 0 {
            Err(RequestError::ZeroWorkers)
        } else if total_samples == 0 {
            Err(RequestError::ZeroSamples)
        } else {
            Ok(IntegrationRequest { lower_bound, upper_bound, total_samples, max_workers, profile })
        }
    }

    /// The width of the interval, `upper_bound - lower_bound`, which scales
    /// every sampled value of the integrand.
    pub fn width(&self) -> (r: u32)
        requires
            self.wf(),
        ensures
            r == self.upper_bound - self.lower_bound,
    {
        (self.upper_bound as i64 - self.lower_bound as i64) as u32
    }
}

/// Whether an optional trailing argument selects the sweep over every
/// worker count: only the word `profile` does.
pub fn is_profile_flag(flag: &str) -> (r: bool)
    ensures
        r == (flag@ == "profile"@),
{
    flag.to_owned() == "profile".to_owned()
}

/// Reads the optional trailing argument: none means a single round, the
/// word `profile` means a sweep, anything else is refused.
pub fn profile_mode(flag: Option<&str>) -> (r: Option<bool>)
    ensures
        match flag {
            None => r == Some(false),
            Some(f) => if f@ == "profile"@ {
                r == Some(true)
            } else {
                r is None
            },
        },
{
    match flag {
        None => Some(false),
        Some(f) => if is_profile_flag(f) {
            Some(true)
        } else {
            None
        },
    }
}

} // verus!
