//! A project's settings turned into what the metrics are computed for.

use vstd::prelude::*;
use crate::project_config::ProjectConfigDto;
use super::RetrieveFourKeysExecutionContextProject;

verus! {

/// Why a project's settings cannot be used to compute metrics.
#[derive(Debug, PartialEq, Eq)]
pub enum RetrieveFourKeysExecutionContextDtoError {
    /// The developer count is zero; the metrics per developer divide by it.
    InvalidDeveloperCount(String),
    /// The working days per week are not within 0 (excluded) to 7 days; the
    /// daily rate divides by them.
    InvalidWorkingDaysPerWeek(String),
}

/// Whether a developer count can be used: at least one developer.
pub open spec fn valid_developer_count(count: u32) -> bool {
    count >= 1
}

/// Whether working days per week, in thousandths of a day, can be used: more
/// than none and at most seven days.
pub open spec fn valid_working_days_per_week_milli(milli: u32) -> bool {
    0 < milli <= 7000
}

/// Builds what the metrics are computed for from a project's settings.
pub struct RetrieveFourKeysExecutionContextDto;

impl RetrieveFourKeysExecutionContextDto {
    /// The project of a metrics computation: its name, developer count and
    /// working days per week, once both numbers are checked (the developer
    /// count first).
    pub fn build_context(dto: ProjectConfigDto) -> (r: Result<
        RetrieveFourKeysExecutionContextProject,
        RetrieveFourKeysExecutionContextDtoError,
    >)
        ensures
            r is Ok <==> valid_developer_count(dto.developer_count)
                && valid_working_days_per_week_milli(dto.working_days_per_week_milli),
            r matches Err(e) ==> (e is InvalidDeveloperCount <==> !valid_developer_count(
                dto.developer_count,
            )),
            r matches Err(e) ==> match e {
                RetrieveFourKeysExecutionContextDtoError::InvalidDeveloperCount(m) => m@
                    == "Developer count must be at least 1"@,
                RetrieveFourKeysExecutionContextDtoError::InvalidWorkingDaysPerWeek(m) => m@
                    == "Working days per week must be more than 0 and at most 7"@,
            },
            r matches Ok(p) ==> {
                &&& p.name@ == dto.project_name@
                &&& p.developer_count == dto.developer_count
                &&& p.working_days_per_week_milli == dto.working_days_per_week_milli
            },
    {
        if dto.developer_count < 1 {
            return Err(
                RetrieveFourKeysExecutionContextDtoError::InvalidDeveloperCount(
                    "Developer count must be at least 1".to_owned(),
                ),
            );
        }
        if dto.working_days_per_week_milli == 0 || dto.working_days_per_week_milli > 7000 {
            return Err(
                RetrieveFourKeysExecutionContextDtoError::InvalidWorkingDaysPerWeek(
                    "Working days per week must be more than 0 and at most 7".to_owned(),
                ),
            );
        }
        Ok(
            RetrieveFourKeysExecutionContextProject {
                name: dto.project_name,
                developer_count: dto.developer_count,
                working_days_per_week_milli: dto.working_days_per_week_milli,
            },
        )
    }
}

} // verus!
