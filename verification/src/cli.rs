//! The run's configuration: the name globs and the optional date bounds,
//! as the command line supplies them, and their fail-fast validation.

use vstd::prelude::*;
use crate::date::{spec_parse_date, parse_date, Date, SetupError};
use crate::glob::{compile_all, Pattern};

verus! {

/// The raw command-line arguments the run is configured from.
#[derive(Debug)]
pub struct Cli {
    /// Package-name globs; none means every package.
    pub packages: Vec<String>,
    /// Inclusive upper date bound, as `YYYY-MM-DD`.
    pub before: Option<String>,
    /// Inclusive lower date bound, as `YYYY-MM-DD`.
    pub after: Option<String>,
}

/// What one optional raw bound denotes: no bound, a date, or a rejection.
pub open spec fn spec_bound(o: Option<String>) -> Result<Option<Date>, SetupError> {
    match o {
        Option::None => Ok(Option::<Date>::None),
        Option::Some(s) => match spec_parse_date(s@) {
            Some(d) => Ok(Some(d)),
            None => Err(SetupError::InvalidDate),
        },
    }
}

/// What the two raw bounds denote together, validating `before` first and
/// failing fast on the first invalid one.
pub open spec fn spec_date_bounds(before: Option<String>, after: Option<String>) -> Result<
    (Option<Date>, Option<Date>),
    SetupError,
> {
    match spec_bound(before) {
        Err(e) => Err(e),
        Ok(b) => match spec_bound(after) {
            Err(e) => Err(e),
            Ok(a) => Ok((b, a)),
        },
    }
}

impl Cli {
    /// Compiles every package glob, in order.
    pub fn compile_patterns(&self) -> (ps: Vec<Pattern>)
        ensures
            ps@.len() == self.packages@.len(),
            forall|m: int|
                0 <= m < self.packages@.len() ==> (#[trigger] ps@[m])@ == self.packages@[m]@,
    {
        compile_all(&self.packages)
    }

    /// Validates the two date bounds, `before` first, failing fast on the
    /// first that is not a `YYYY-MM-DD` calendar date.
    pub fn date_bounds(&self) -> (r: Result<(Option<Date>, Option<Date>), SetupError>)
        ensures
            r == spec_date_bounds(self.before, self.after),
    {
        let not_after: Option<Date> = match &self.before {
            Option::None => Option::None,
            Option::Some(s) => match parse_date(s.as_str()) {
                Ok(d) => Some(d),
                Err(e) => {
                    return Err(e);
                },
            },
        };
        let not_before: Option<Date> = match &self.after {
            Option::None => Option::None,
            Option::Some(s) => match parse_date(s.as_str()) {
                Ok(d) => Some(d),
                Err(e) => {
                    return Err(e);
                },
            },
        };
        Ok((not_after, not_before))
    }
}

} // verus!
