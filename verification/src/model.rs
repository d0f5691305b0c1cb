use vstd::prelude::*;

verus! {

/// A backup time bucket as reported by the monitoring API. Only the three
/// most recent day-buckets take part in alerting; everything else is `Other`.
#[derive(Clone, Copy, PartialEq, Eq, Structural, Debug)]
pub enum TimeWindow {
    Between0dAnd1d,
    Between1dAnd2d,
    Between2dAnd3d,
    Other,
}

/// One entry of a backup history: the bucket it falls in and the reported
/// outcome, where the string "Perfect" is the only success value.
pub struct BackupWindowStatus {
    pub time_window: TimeWindow,
    pub status: String,
}

impl Clone for BackupWindowStatus {
    fn clone(&self) -> (res: Self)
        ensures
            res == *self,
    {
        BackupWindowStatus { time_window: self.time_window, status: self.status.clone() }
    }
}

/// One application type of a customer, with its backup history in the order
/// the API returned it.
pub struct AppType {
    pub app_type: String,
    pub backup_history: Vec<BackupWindowStatus>,
}

/// A suite groups the application types of one customer record.
pub struct Suite {
    pub app_types: Vec<AppType>,
}

/// One customer entry of an applications response.
pub struct CustomerRecord {
    pub customer_name: String,
    pub suites: Vec<Suite>,
}

/// A locally configured company: alerts for customer names that contain
/// `name` are routed between its two mail addresses.
pub struct Company {
    pub name: String,
    pub sending_email: String,
    pub receiving_email: String,
}

impl Clone for Company {
    fn clone(&self) -> (res: Self)
        ensures
            res == *self,
    {
        Company {
            name: self.name.clone(),
            sending_email: self.sending_email.clone(),
            receiving_email: self.receiving_email.clone(),
        }
    }
}

/// A monitored domain as returned by the domain listing; the identifier is
/// optional because the upstream data may lack it.
pub struct Domain {
    pub saas_customer_id: Option<u64>,
}

/// The decision output: one alert for a customer/application pair whose
/// relevant backup windows all failed, routed to the matched company.
pub struct AlertEvent {
    pub customer_name: String,
    pub app_type: String,
    pub windows: Vec<BackupWindowStatus>,
    pub company: Company,
}

} // verus!
