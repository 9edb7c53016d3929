//! Task records: statuses, requests and their wire decodes.

use vstd::prelude::*;

use crate::error::Error;
use crate::utils::links::LinkMap;
use crate::utils::timestamp::{
    iso_field_spec, opt_iso_field_spec, Timestamp,
};
use crate::utils::StringMap;
use crate::wire::{
    decode_field, decode_opt_field, field_spec, opt_field_spec, SpecWire, WireDecode,
    WireValue,
};
use crate::Hateoas;

verus! {

/// Every status a task moves through.
#[derive(Debug, Copy, Clone, PartialEq, Eq, PartialOrd, Ord, Hash, Structural)]
#[non_exhaustive]
pub enum TaskStatusType {
    Received,
    Pending,
    Scheduled,
    Rejected,
    Denied,
    MovedVis,
    Bumped,
    Moved,
    Cancelled,
    SystemError,
    QueuedPass,
    Configured,
    Downlinking,
    Recording,
    CompletedPass,
    DataCloud,
    Processing,
    ReadyCustom,
    ProcessedCustom,
    ErrorCustom,
    Completed,
    CompletedError,
    PushedToCustomer,
    ErrorPushToCustomer,
    Invoiced,
    Paid,
}

impl DeepView for TaskStatusType {
    type V = TaskStatusType;

    open spec fn deep_view(&self) -> TaskStatusType {
        *self
    }
}

/// The status named by its upper-case wire text, if any.
pub open spec fn task_status_type_of_name(s: Seq<char>) -> Option<TaskStatusType> {
    if s == "RECEIVED"@ {
        Some(TaskStatusType::Received)
    } else if s == "PENDING"@ {
        Some(TaskStatusType::Pending)
    } else if s == "SCHEDULED"@ {
        Some(TaskStatusType::Scheduled)
    } else if s == "REJECTED"@ {
        Some(TaskStatusType::Rejected)
    } else if s == "DENIED"@ {
        Some(TaskStatusType::Denied)
    } else if s == "MOVED_VIS"@ {
        Some(TaskStatusType::MovedVis)
    } else if s == "BUMPED"@ {
        Some(TaskStatusType::Bumped)
    } else if s == "MOVED"@ {
        Some(TaskStatusType::Moved)
    } else if s == "CANCELLED"@ {
        Some(TaskStatusType::Cancelled)
    } else if s == "SYSTEM_ERROR"@ {
        Some(TaskStatusType::SystemError)
    } else if s == "QUEUED_PASS"@ {
        Some(TaskStatusType::QueuedPass)
    } else if s == "CONFIGURED"@ {
        Some(TaskStatusType::Configured)
    } else if s == "DOWNLINKING"@ {
        Some(TaskStatusType::Downlinking)
    } else if s == "RECORDING"@ {
        Some(TaskStatusType::Recording)
    } else if s == "COMPLETED_PASS"@ {
        Some(TaskStatusType::CompletedPass)
    } else if s == "DATA_CLOUD"@ {
        Some(TaskStatusType::DataCloud)
    } else if s == "PROCESSING"@ {
        Some(TaskStatusType::Processing)
    } else if s == "READY_CUSTOM"@ {
        Some(TaskStatusType::ReadyCustom)
    } else if s == "PROCESSED_CUSTOM"@ {
        Some(TaskStatusType::ProcessedCustom)
    } else if s == "ERROR_CUSTOM"@ {
        Some(TaskStatusType::ErrorCustom)
    } else if s == "COMPLETED"@ {
        Some(TaskStatusType::Completed)
    } else if s == "COMPLETED_ERROR"@ {
        Some(TaskStatusType::CompletedError)
    } else if s == "PUSHED_TO_CUSTOMER"@ {
        Some(TaskStatusType::PushedToCustomer)
    } else if s == "ERROR_PUSH_TO_CUSTOMER"@ {
        Some(TaskStatusType::ErrorPushToCustomer)
    } else if s == "INVOICED"@ {
        Some(TaskStatusType::Invoiced)
    } else if s == "PAID"@ {
        Some(TaskStatusType::Paid)
    } else {
        None
    }
}

impl TaskStatusType {
    /// Reads a status from its upper-case wire name.
    pub fn from_wire_name(s: &str) -> (r: Option<TaskStatusType>)
        ensures
            r == task_status_type_of_name(s@),
    {
        if crate::wire::str_eq(s, "RECEIVED") {
            Some(TaskStatusType::Received)
        } else if crate::wire::str_eq(s, "PENDING") {
            Some(TaskStatusType::Pending)
        } else if crate::wire::str_eq(s, "SCHEDULED") {
            Some(TaskStatusType::Scheduled)
        } else if crate::wire::str_eq(s, "REJECTED") {
            Some(TaskStatusType::Rejected)
        } else if crate::wire::str_eq(s, "DENIED") {
            Some(TaskStatusType::Denied)
        } else if crate::wire::str_eq(s, "MOVED_VIS") {
            Some(TaskStatusType::MovedVis)
        } else if crate::wire::str_eq(s, "BUMPED") {
            Some(TaskStatusType::Bumped)
        } else if crate::wire::str_eq(s, "MOVED") {
            Some(TaskStatusType::Moved)
        } else if crate::wire::str_eq(s, "CANCELLED") {
            Some(TaskStatusType::Cancelled)
        } else if crate::wire::str_eq(s, "SYSTEM_ERROR") {
            Some(TaskStatusType::SystemError)
        } else if crate::wire::str_eq(s, "QUEUED_PASS") {
            Some(TaskStatusType::QueuedPass)
        } else if crate::wire::str_eq(s, "CONFIGURED") {
            Some(TaskStatusType::Configured)
        } else if crate::wire::str_eq(s, "DOWNLINKING") {
            Some(TaskStatusType::Downlinking)
        } else if crate::wire::str_eq(s, "RECORDING") {
            Some(TaskStatusType::Recording)
        } else if crate::wire::str_eq(s, "COMPLETED_PASS") {
            Some(TaskStatusType::CompletedPass)
        } else if crate::wire::str_eq(s, "DATA_CLOUD") {
            Some(TaskStatusType::DataCloud)
        } else if crate::wire::str_eq(s, "PROCESSING") {
            Some(TaskStatusType::Processing)
        } else if crate::wire::str_eq(s, "READY_CUSTOM") {
            Some(TaskStatusType::ReadyCustom)
        } else if crate::wire::str_eq(s, "PROCESSED_CUSTOM") {
            Some(TaskStatusType::ProcessedCustom)
        } else if crate::wire::str_eq(s, "ERROR_CUSTOM") {
            Some(TaskStatusType::ErrorCustom)
        } else if crate::wire::str_eq(s, "COMPLETED") {
            Some(TaskStatusType::Completed)
        } else if crate::wire::str_eq(s, "COMPLETED_ERROR") {
            Some(TaskStatusType::CompletedError)
        } else if crate::wire::str_eq(s, "PUSHED_TO_CUSTOMER") {
            Some(TaskStatusType::PushedToCustomer)
        } else if crate::wire::str_eq(s, "ERROR_PUSH_TO_CUSTOMER") {
            Some(TaskStatusType::ErrorPushToCustomer)
        } else if crate::wire::str_eq(s, "INVOICED") {
            Some(TaskStatusType::Invoiced)
        } else if crate::wire::str_eq(s, "PAID") {
            Some(TaskStatusType::Paid)
        } else {
            None
        }
    }
}

impl WireDecode for TaskStatusType {
    open spec fn decode_spec(v: SpecWire) -> Option<TaskStatusType> {
        match v {
            SpecWire::Text(s) => task_status_type_of_name(s),
            _ => None,
        }
    }

    fn decode_wire(v: &WireValue) -> (r: Result<Self, Error>) {
        match v {
            WireValue::Text(s) => match TaskStatusType::from_wire_name(s.as_str()) {
                Some(t) => Ok(t),
                None => Err(Error::PaginatedInner),
            },
            _ => Err(Error::PaginatedInner),
        }
    }
}

/// One entry of a task's status history.
#[derive(Debug, Clone, PartialEq, Eq)]
pub struct TaskStatus {
    /// When the status was recorded; the wire may carry either timestamp
    /// form here.
    pub created: Timestamp,
    /// The status reached.
    pub status: TaskStatusType,
    /// The server's stated reason.
    pub reason: String,
}

/// The mathematical shape of a `TaskStatus`.
pub struct TaskStatusV {
    /// When the status was recorded.
    pub created: Timestamp,
    /// The status reached.
    pub status: TaskStatusType,
    /// The server's stated reason.
    pub reason: Seq<char>,
}

impl DeepView for TaskStatus {
    type V = TaskStatusV;

    open spec fn deep_view(&self) -> TaskStatusV {
        TaskStatusV { created: self.created, status: self.status, reason: self.reason@ }
    }
}

/// The meaning of decoding one status entry.
pub open spec fn task_status_decode_spec(v: SpecWire) -> Option<TaskStatusV> {
    match (
        field_spec::<Timestamp>(v, "created"@),
        field_spec::<TaskStatusType>(v, "status"@),
        field_spec::<String>(v, "reason"@),
    ) {
        (Some(created), Some(status), Some(reason)) => Some(
            TaskStatusV { created, status, reason },
        ),
        _ => None,
    }
}

impl WireDecode for TaskStatus {
    open spec fn decode_spec(v: SpecWire) -> Option<TaskStatusV> {
        task_status_decode_spec(v)
    }

    fn decode_wire(v: &WireValue) -> (r: Result<Self, Error>) {
        let created = match decode_field::<Timestamp>(v, "created") {
            Ok(created) => created,
            Err(e) => { return Err(e) },
        };
        let status = match decode_field::<TaskStatusType>(v, "status") {
            Ok(status) => status,
            Err(e) => { return Err(e) },
        };
        let reason = match decode_field::<String>(v, "reason") {
            Ok(reason) => reason,
            Err(e) => { return Err(e) },
        };
        Ok(TaskStatus { created, status, reason })
    }
}

/// Timestamp order: by seconds, then by nanoseconds.
pub open spec fn ts_le(a: Timestamp, b: Timestamp) -> bool {
    a.seconds < b.seconds || (a.seconds == b.seconds && a.nanos <= b.nanos)
}

/// The last-created entry of a status history; on ties the later entry
/// wins.
pub open spec fn latest_of(s: Seq<TaskStatusV>) -> Option<TaskStatusV>
    decreases s.len(),
{
    if s.len() == 0 {
        None
    } else {
        match latest_of(s.drop_last()) {
            None => Some(s.last()),
            Some(m) => if ts_le(m.created, s.last().created) {
                Some(s.last())
            } else {
                Some(m)
            },
        }
    }
}

/// How a task's polarization is configured.
#[derive(Debug, Copy, Clone, PartialEq, Eq, PartialOrd, Ord, Hash, Structural)]
#[non_exhaustive]
pub enum Polarization {
    Right,
    Left,
    Vertical,
    Horizontal,
}

impl Default for Polarization {
    /// Right-hand polarization is the default.
    fn default() -> (r: Self)
        ensures
            r == Polarization::Right,
    {
        Polarization::Right
    }
}

/// How a task is placed against its target date.
#[derive(Debug, Copy, Clone, PartialEq, Eq, PartialOrd, Ord, Hash, Structural)]
#[non_exhaustive]
pub enum TaskType {
    Before,
    After,
    Test,
    Around,
    Exact,
}

/// The task type named by its upper-case wire text, if any.
pub open spec fn task_type_of_name(s: Seq<char>) -> Option<TaskType> {
    if s == "BEFORE"@ {
        Some(TaskType::Before)
    } else if s == "AFTER"@ {
        Some(TaskType::After)
    } else if s == "TEST"@ {
        Some(TaskType::Test)
    } else if s == "AROUND"@ {
        Some(TaskType::Around)
    } else if s == "EXACT"@ {
        Some(TaskType::Exact)
    } else {
        None
    }
}

impl DeepView for TaskType {
    type V = TaskType;

    open spec fn deep_view(&self) -> TaskType {
        *self
    }
}

impl WireDecode for TaskType {
    open spec fn decode_spec(v: SpecWire) -> Option<TaskType> {
        match v {
            SpecWire::Text(s) => task_type_of_name(s),
            _ => None,
        }
    }

    fn decode_wire(v: &WireValue) -> (r: Result<Self, Error>) {
        match v {
            WireValue::Text(s) => {
                if crate::wire::str_eq(s.as_str(), "BEFORE") {
                    Ok(TaskType::Before)
                } else if crate::wire::str_eq(s.as_str(), "AFTER") {
                    Ok(TaskType::After)
                } else if crate::wire::str_eq(s.as_str(), "TEST") {
                    Ok(TaskType::Test)
                } else if crate::wire::str_eq(s.as_str(), "AROUND") {
                    Ok(TaskType::Around)
                } else if crate::wire::str_eq(s.as_str(), "EXACT") {
                    Ok(TaskType::Exact)
                } else {
                    Err(Error::PaginatedInner)
                }
            },
            _ => Err(Error::PaginatedInner),
        }
    }
}

/// A status-change event for one task request.
#[derive(Debug, Clone, PartialEq, Eq)]
pub struct TaskStatusEvent {
    /// The task request the event belongs to.
    pub task_request_id: i32,
    /// Where the task request lives.
    pub task_request_uri: String,
    /// The status history carried by the event.
    pub status_changes: Vec<TaskStatus>,
}

/// The mathematical shape of a `TaskStatusEvent`.
pub struct TaskStatusEventV {
    /// The task request the event belongs to.
    pub task_request_id: i32,
    /// Where the task request lives.
    pub task_request_uri: Seq<char>,
    /// The status history carried by the event.
    pub status_changes: Seq<TaskStatusV>,
}

impl DeepView for TaskStatusEvent {
    type V = TaskStatusEventV;

    open spec fn deep_view(&self) -> TaskStatusEventV {
        TaskStatusEventV {
            task_request_id: self.task_request_id,
            task_request_uri: self.task_request_uri@,
            status_changes: self.status_changes.deep_view(),
        }
    }
}

/// The meaning of decoding a status-change event.
pub open spec fn task_status_event_decode_spec(v: SpecWire) -> Option<TaskStatusEventV> {
    match (
        field_spec::<i32>(v, "taskRequestId"@),
        field_spec::<String>(v, "taskRequestUri"@),
        field_spec::<Vec<TaskStatus>>(v, "statusChanges"@),
    ) {
        (Some(task_request_id), Some(task_request_uri), Some(status_changes)) => Some(
            TaskStatusEventV { task_request_id, task_request_uri, status_changes },
        ),
        _ => None,
    }
}

impl WireDecode for TaskStatusEvent {
    open spec fn decode_spec(v: SpecWire) -> Option<TaskStatusEventV> {
        task_status_event_decode_spec(v)
    }

    fn decode_wire(v: &WireValue) -> (r: Result<Self, Error>) {
        let task_request_id = match decode_field::<i32>(v, "taskRequestId") {
            Ok(id) => id,
            Err(e) => { return Err(e) },
        };
        let task_request_uri = match decode_field::<String>(v, "taskRequestUri") {
            Ok(uri) => uri,
            Err(e) => { return Err(e) },
        };
        let status_changes = match decode_field::<Vec<TaskStatus>>(v, "statusChanges") {
            Ok(changes) => changes,
            Err(e) => { return Err(e) },
        };
        Ok(TaskStatusEvent { task_request_id, task_request_uri, status_changes })
    }
}

impl TaskStatusEvent {
    /// The most recently created status change, if the history is not
    /// empty; between equally recent entries the later one wins.
    pub fn latest_status(&self) -> (r: Option<&TaskStatus>)
        ensures
            match r {
                Some(s) => latest_of(self.deep_view().status_changes) == Some(s.deep_view()),
                None => self.status_changes@.len() == 0,
            },
    {
        let ghost views = self.status_changes.deep_view();
        let len = self.status_changes.len();
        if len == 0 {
            return None;
        }
        let mut best: usize = 0;
        let mut i: usize = 1;
        proof {
            assert(latest_of(Seq::<TaskStatusV>::empty()) is None);
            assert(views.take(1).drop_last() =~= Seq::<TaskStatusV>::empty());
            assert(views.take(1).last() == views[0]);
        }
        while i < len
            invariant
                self.status_changes@.len() == len,
                views == self.status_changes.deep_view(),
                views.len() == len,
                0 <= best < i <= len,
                latest_of(views.take(i as int)) == Some(views[best as int]),
            decreases len - i,
        {
            proof {
                assert(views.take(i + 1).drop_last() =~= views.take(i as int));
                assert(views.take(i + 1).last() == views[i as int]);
            }
            let cur = &self.status_changes[i];
            let b = &self.status_changes[best];
            let newer = cur.created.seconds > b.created.seconds || (cur.created.seconds
                == b.created.seconds && cur.created.nanos >= b.created.nanos);
            if newer {
                best = i;
            }
            i = i + 1;
        }
        proof {
            assert(views.take(len as int) =~= views);
        }
        Some(&self.status_changes[best])
    }
}

/// A scheduled task.
#[derive(Debug)]
pub struct Task {
    /// When the task was created.
    pub created: Timestamp,
    /// When the task was last modified.
    pub modified: Option<Timestamp>,
    /// Whether a visibility window was found.
    pub found_visibility: bool,
    /// Operator-side metadata; unavailable for user accounts.
    pub internal_meta_data: Option<StringMap>,
    /// The scheduler's score; unavailable for user accounts.
    pub score: Option<u8>,
    /// When the pass starts.
    pub start: Timestamp,
    /// When the pass ends.
    pub end: Timestamp,
    /// When the satellite becomes visible.
    pub visibility_start: Option<Timestamp>,
    /// When the satellite stops being visible.
    pub visibility_end: Option<Timestamp>,
    /// Whether the task is billed.
    pub billable: bool,
    /// The pass length in seconds.
    pub duration_in_seconds: u32,
    /// Whether the task fits its configuration window.
    pub task_within_config_window: bool,
    /// The pass length as the server words it.
    pub duration: String,
    /// Where the pass results were stored.
    pub file_results: Vec<String>,
    /// Customer-side metadata.
    pub meta_data: Option<StringMap>,
    /// The task's hypermedia links.
    pub links: LinkMap,
}

/// The mathematical shape of a `Task`.
pub struct TaskV {
    pub created: Timestamp,
    pub modified: Option<Timestamp>,
    pub found_visibility: bool,
    pub internal_meta_data: Option<Map<Seq<char>, Seq<char>>>,
    pub score: Option<u8>,
    pub start: Timestamp,
    pub end: Timestamp,
    pub visibility_start: Option<Timestamp>,
    pub visibility_end: Option<Timestamp>,
    pub billable: bool,
    pub duration_in_seconds: u32,
    pub task_within_config_window: bool,
    pub duration: Seq<char>,
    pub file_results: Seq<Seq<char>>,
    pub meta_data: Option<Map<Seq<char>, Seq<char>>>,
    pub links: Map<Seq<char>, Seq<char>>,
}

impl DeepView for Task {
    type V = TaskV;

    open spec fn deep_view(&self) -> TaskV {
        TaskV {
            created: self.created,
            modified: self.modified.deep_view(),
            found_visibility: self.found_visibility,
            internal_meta_data: self.internal_meta_data.deep_view(),
            score: self.score,
            start: self.start,
            end: self.end,
            visibility_start: self.visibility_start.deep_view(),
            visibility_end: self.visibility_end.deep_view(),
            billable: self.billable,
            duration_in_seconds: self.duration_in_seconds,
            task_within_config_window: self.task_within_config_window,
            duration: self.duration@,
            file_results: self.file_results.deep_view(),
            meta_data: self.meta_data.deep_view(),
            links: self.links@,
        }
    }
}

/// The meaning of decoding a task record. The `created`, `start` and
/// `end` stamps come as date-time text only; the link map defaults to
/// empty when absent.
pub open spec fn task_decode_spec(v: SpecWire) -> Option<TaskV> {
    match (
        iso_field_spec(v, "created"@),
        opt_iso_field_spec(v, "modified"@),
        field_spec::<bool>(v, "foundVisibility"@),
        opt_field_spec::<StringMap>(v, "internalMetaData"@),
        opt_field_spec::<u8>(v, "score"@),
        iso_field_spec(v, "start"@),
        iso_field_spec(v, "end"@),
        opt_iso_field_spec(v, "visibilityStart"@),
        opt_iso_field_spec(v, "visibilityEnd"@),
        field_spec::<bool>(v, "billable"@),
        field_spec::<u32>(v, "durationInSeconds"@),
        field_spec::<bool>(v, "taskWithinConfigWindow"@),
        field_spec::<String>(v, "duration"@),
        field_spec::<Vec<String>>(v, "fileResults"@),
        opt_field_spec::<StringMap>(v, "metaData"@),
        crate::utils::links_field_spec(v),
    ) {
        (
            Some(created),
            Some(modified),
            Some(found_visibility),
            Some(internal_meta_data),
            Some(score),
            Some(start),
            Some(end),
            Some(visibility_start),
            Some(visibility_end),
            Some(billable),
            Some(duration_in_seconds),
            Some(task_within_config_window),
            Some(duration),
            Some(file_results),
            Some(meta_data),
            Some(links),
        ) => Some(
            TaskV {
                created,
                modified,
                found_visibility,
                internal_meta_data,
                score,
                start,
                end,
                visibility_start,
                visibility_end,
                billable,
                duration_in_seconds,
                task_within_config_window,
                duration,
                file_results,
                meta_data,
                links,
            },
        ),
        _ => None,
    }
}

impl WireDecode for Task {
    open spec fn decode_spec(v: SpecWire) -> Option<TaskV> {
        task_decode_spec(v)
    }

    fn decode_wire(v: &WireValue) -> (r: Result<Self, Error>) {
        let created = match crate::utils::timestamp::decode_iso_field(v, "created") {
            Ok(x) => x,
            Err(e) => { return Err(e) },
        };
        let modified = match crate::utils::timestamp::decode_opt_iso_field(v, "modified") {
            Ok(x) => x,
            Err(e) => { return Err(e) },
        };
        let found_visibility = match decode_field::<bool>(v, "foundVisibility") {
            Ok(x) => x,
            Err(e) => { return Err(e) },
        };
        let internal_meta_data = match decode_opt_field::<StringMap>(v, "internalMetaData") {
            Ok(x) => x,
            Err(e) => { return Err(e) },
        };
        let score = match decode_opt_field::<u8>(v, "score") {
            Ok(x) => x,
            Err(e) => { return Err(e) },
        };
        let start = match crate::utils::timestamp::decode_iso_field(v, "start") {
            Ok(x) => x,
            Err(e) => { return Err(e) },
        };
        let end = match crate::utils::timestamp::decode_iso_field(v, "end") {
            Ok(x) => x,
            Err(e) => { return Err(e) },
        };
        let visibility_start = match crate::utils::timestamp::decode_opt_iso_field(
            v,
            "visibilityStart",
        ) {
            Ok(x) => x,
            Err(e) => { return Err(e) },
        };
        let visibility_end = match crate::utils::timestamp::decode_opt_iso_field(
            v,
            "visibilityEnd",
        ) {
            Ok(x) => x,
            Err(e) => { return Err(e) },
        };
        let billable = match decode_field::<bool>(v, "billable") {
            Ok(x) => x,
            Err(e) => { return Err(e) },
        };
        let duration_in_seconds = match decode_field::<u32>(v, "durationInSeconds") {
            Ok(x) => x,
            Err(e) => { return Err(e) },
        };
        let task_within_config_window = match decode_field::<bool>(v, "taskWithinConfigWindow") {
            Ok(x) => x,
            Err(e) => { return Err(e) },
        };
        let duration = match decode_field::<String>(v, "duration") {
            Ok(x) => x,
            Err(e) => { return Err(e) },
        };
        let file_results = match decode_field::<Vec<String>>(v, "fileResults") {
            Ok(x) => x,
            Err(e) => { return Err(e) },
        };
        let meta_data = match decode_opt_field::<StringMap>(v, "metaData") {
            Ok(x) => x,
            Err(e) => { return Err(e) },
        };
        let links = match crate::utils::decode_links_field(v) {
            Ok(x) => x,
            Err(e) => { return Err(e) },
        };
        Ok(
            Task {
                created,
                modified,
                found_visibility,
                internal_meta_data,
                score,
                start,
                end,
                visibility_start,
                visibility_end,
                billable,
                duration_in_seconds,
                task_within_config_window,
                duration,
                file_results,
                meta_data,
                links,
            },
        )
    }
}

impl Hateoas for Task {
    open spec fn spec_links(m: TaskV) -> Map<Seq<char>, Seq<char>> {
        m.links
    }

    open spec fn spec_with_links(m: TaskV, links: Map<Seq<char>, Seq<char>>) -> TaskV {
        TaskV { links, ..m }
    }

    proof fn lemma_with_links(m: TaskV, links: Map<Seq<char>, Seq<char>>) {
    }

    fn get_links(&self) -> (r: &LinkMap) {
        &self.links
    }

    fn set_links(&mut self, links: LinkMap) {
        self.links = links;
    }
}

} // verus!

verus! {

/// A request for a task to be scheduled.
#[derive(Debug)]
pub struct TaskRequest {
    /// When the request was created.
    pub created: Timestamp,
    /// When the request was last modified.
    pub modified: Option<Timestamp>,
    /// Operator-side metadata; unavailable for user accounts.
    pub internal_meta_data: Option<StringMap>,
    /// How the request is placed against its target date.
    pub task_type: TaskType,
    /// How far the request may flex; absent on the wire reads as zero.
    pub hours_of_flex: u32,
    /// The requested pass length in seconds.
    pub duration: u32,
    /// The least acceptable pass length in seconds.
    pub minimum_duration: u32,
    /// The date the request aims at.
    pub target_date: Timestamp,
    /// The earliest acceptable start.
    pub earliest_start: Timestamp,
    /// The latest acceptable start.
    pub latest_start: Timestamp,
    /// Whether the pass transmits.
    pub transmitting: bool,
    /// The test file to run, if any.
    pub test_file: Option<String>,
    /// The request's status history.
    pub status_changes: Vec<TaskStatus>,
    /// Whether the task is active.
    pub task_active: bool,
    /// Whether the request has been scheduled.
    pub task_request_scheduled: bool,
    /// Whether the request has been cancelled.
    pub task_request_cancelled: bool,
    /// Whether the request may flex.
    pub flex: bool,
    /// The most recent status change.
    pub latest_status_change: TaskStatus,
    /// Customer-side metadata.
    pub meta_data: Option<StringMap>,
    /// The request's hypermedia links.
    pub links: LinkMap,
}

/// The mathematical shape of a `TaskRequest`.
pub struct TaskRequestV {
    pub created: Timestamp,
    pub modified: Option<Timestamp>,
    pub internal_meta_data: Option<Map<Seq<char>, Seq<char>>>,
    pub task_type: TaskType,
    pub hours_of_flex: u32,
    pub duration: u32,
    pub minimum_duration: u32,
    pub target_date: Timestamp,
    pub earliest_start: Timestamp,
    pub latest_start: Timestamp,
    pub transmitting: bool,
    pub test_file: Option<Seq<char>>,
    pub status_changes: Seq<TaskStatusV>,
    pub task_active: bool,
    pub task_request_scheduled: bool,
    pub task_request_cancelled: bool,
    pub flex: bool,
    pub latest_status_change: TaskStatusV,
    pub meta_data: Option<Map<Seq<char>, Seq<char>>>,
    pub links: Map<Seq<char>, Seq<char>>,
}

impl DeepView for TaskRequest {
    type V = TaskRequestV;

    open spec fn deep_view(&self) -> TaskRequestV {
        TaskRequestV {
            created: self.created,
            modified: self.modified.deep_view(),
            internal_meta_data: self.internal_meta_data.deep_view(),
            task_type: self.task_type,
            hours_of_flex: self.hours_of_flex,
            duration: self.duration,
            minimum_duration: self.minimum_duration,
            target_date: self.target_date,
            earliest_start: self.earliest_start,
            latest_start: self.latest_start,
            transmitting: self.transmitting,
            test_file: self.test_file.deep_view(),
            status_changes: self.status_changes.deep_view(),
            task_active: self.task_active,
            task_request_scheduled: self.task_request_scheduled,
            task_request_cancelled: self.task_request_cancelled,
            flex: self.flex,
            latest_status_change: self.latest_status_change.deep_view(),
            meta_data: self.meta_data.deep_view(),
            links: self.links@,
        }
    }
}

/// The meaning of decoding a task request. The type arrives under the
/// wire name `type`; the stamps come as date-time text only.
pub open spec fn task_request_decode_spec(v: SpecWire) -> Option<TaskRequestV> {
    match (
        iso_field_spec(v, "created"@),
        opt_iso_field_spec(v, "modified"@),
        opt_field_spec::<StringMap>(v, "internalMetaData"@),
        field_spec::<TaskType>(v, "type"@),
        crate::utils::default_u32_field_spec(v, "hoursOfFlex"@),
        field_spec::<u32>(v, "duration"@),
        field_spec::<u32>(v, "minimumDuration"@),
        iso_field_spec(v, "targetDate"@),
        iso_field_spec(v, "earliestStart"@),
        iso_field_spec(v, "latestStart"@),
        field_spec::<bool>(v, "transmitting"@),
        opt_field_spec::<String>(v, "testFile"@),
        field_spec::<Vec<TaskStatus>>(v, "statusChanges"@),
        field_spec::<bool>(v, "taskActive"@),
        field_spec::<bool>(v, "taskRequestScheduled"@),
        field_spec::<bool>(v, "taskRequestCancelled"@),
        field_spec::<bool>(v, "flex"@),
        field_spec::<TaskStatus>(v, "latestStatusChange"@),
        opt_field_spec::<StringMap>(v, "metaData"@),
        crate::utils::links_field_spec(v),
    ) {
        (
            Some(created),
            Some(modified),
            Some(internal_meta_data),
            Some(task_type),
            Some(hours_of_flex),
            Some(duration),
            Some(minimum_duration),
            Some(target_date),
            Some(earliest_start),
            Some(latest_start),
            Some(transmitting),
            Some(test_file),
            Some(status_changes),
            Some(task_active),
            Some(task_request_scheduled),
            Some(task_request_cancelled),
            Some(flex),
            Some(latest_status_change),
            Some(meta_data),
            Some(links),
        ) => Some(
            TaskRequestV {
                created,
                modified,
                internal_meta_data,
                task_type,
                hours_of_flex,
                duration,
                minimum_duration,
                target_date,
                earliest_start,
                latest_start,
                transmitting,
                test_file,
                status_changes,
                task_active,
                task_request_scheduled,
                task_request_cancelled,
                flex,
                latest_status_change,
                meta_data,
                links,
            },
        ),
        _ => None,
    }
}

impl WireDecode for TaskRequest {
    open spec fn decode_spec(v: SpecWire) -> Option<TaskRequestV> {
        task_request_decode_spec(v)
    }

    fn decode_wire(v: &WireValue) -> (r: Result<Self, Error>) {
        let created = match crate::utils::timestamp::decode_iso_field(v, "created") {
            Ok(x) => x,
            Err(e) => { return Err(e) },
        };
        let modified = match crate::utils::timestamp::decode_opt_iso_field(v, "modified") {
            Ok(x) => x,
            Err(e) => { return Err(e) },
        };
        let internal_meta_data = match decode_opt_field::<StringMap>(v, "internalMetaData") {
            Ok(x) => x,
            Err(e) => { return Err(e) },
        };
        let task_type = match decode_field::<TaskType>(v, "type") {
            Ok(x) => x,
            Err(e) => { return Err(e) },
        };
        let hours_of_flex = match crate::utils::decode_default_u32_field(v, "hoursOfFlex") {
            Ok(x) => x,
            Err(e) => { return Err(e) },
        };
        let duration = match decode_field::<u32>(v, "duration") {
            Ok(x) => x,
            Err(e) => { return Err(e) },
        };
        let minimum_duration = match decode_field::<u32>(v, "minimumDuration") {
            Ok(x) => x,
            Err(e) => { return Err(e) },
        };
        let target_date = match crate::utils::timestamp::decode_iso_field(v, "targetDate") {
            Ok(x) => x,
            Err(e) => { return Err(e) },
        };
        let earliest_start = match crate::utils::timestamp::decode_iso_field(v, "earliestStart") {
            Ok(x) => x,
            Err(e) => { return Err(e) },
        };
        let latest_start = match crate::utils::timestamp::decode_iso_field(v, "latestStart") {
            Ok(x) => x,
            Err(e) => { return Err(e) },
        };
        let transmitting = match decode_field::<bool>(v, "transmitting") {
            Ok(x) => x,
            Err(e) => { return Err(e) },
        };
        let test_file = match decode_opt_field::<String>(v, "testFile") {
            Ok(x) => x,
            Err(e) => { return Err(e) },
        };
        let status_changes = match decode_field::<Vec<TaskStatus>>(v, "statusChanges") {
            Ok(x) => x,
            Err(e) => { return Err(e) },
        };
        let task_active = match decode_field::<bool>(v, "taskActive") {
            Ok(x) => x,
            Err(e) => { return Err(e) },
        };
        let task_request_scheduled = match decode_field::<bool>(v, "taskRequestScheduled") {
            Ok(x) => x,
            Err(e) => { return Err(e) },
        };
        let task_request_cancelled = match decode_field::<bool>(v, "taskRequestCancelled") {
            Ok(x) => x,
            Err(e) => { return Err(e) },
        };
        let flex = match decode_field::<bool>(v, "flex") {
            Ok(x) => x,
            Err(e) => { return Err(e) },
        };
        let latest_status_change = match decode_field::<TaskStatus>(v, "latestStatusChange") {
            Ok(x) => x,
            Err(e) => { return Err(e) },
        };
        let meta_data = match decode_opt_field::<StringMap>(v, "metaData") {
            Ok(x) => x,
            Err(e) => { return Err(e) },
        };
        let links = match crate::utils::decode_links_field(v) {
            Ok(x) => x,
            Err(e) => { return Err(e) },
        };
        Ok(
            TaskRequest {
                created,
                modified,
                internal_meta_data,
                task_type,
                hours_of_flex,
                duration,
                minimum_duration,
                target_date,
                earliest_start,
                latest_start,
                transmitting,
                test_file,
                status_changes,
                task_active,
                task_request_scheduled,
                task_request_cancelled,
                flex,
                latest_status_change,
                meta_data,
                links,
            },
        )
    }
}

impl Hateoas for TaskRequest {
    open spec fn spec_links(m: TaskRequestV) -> Map<Seq<char>, Seq<char>> {
        m.links
    }

    open spec fn spec_with_links(m: TaskRequestV, links: Map<Seq<char>, Seq<char>>) -> TaskRequestV {
        TaskRequestV { links, ..m }
    }

    proof fn lemma_with_links(m: TaskRequestV, links: Map<Seq<char>, Seq<char>>) {
    }

    fn get_links(&self) -> (r: &LinkMap) {
        &self.links
    }

    fn set_links(&mut self, links: LinkMap) {
        self.links = links;
    }
}

} // verus!
