//! The health of the control plane's link to the Kubernetes API, and when
//! a status is written back.
use vstd::prelude::*;
use vstd::string::*;

verus! {

/// The health that an indicator reports: up, or down with the error.
#[derive(Debug, PartialEq, Eq)]
pub enum Health {
    Up,
    Down(String),
}

/// The health indicator of the Kubernetes API.
pub struct KubernetesApiHealthIndicator;

impl KubernetesApiHealthIndicator {
    /// The name under which the indicator reports.
    pub fn name(&self) -> (r: String)
        ensures
            r@ == "KubernetesAPI"@,
    {
        String::from_str("KubernetesAPI")
    }

    /// The health given the outcome of listing gateway class parameters:
    /// none when no client is available yet, else the listing's result
    /// with the text of its error.
    pub fn details(&self, listing: Option<Result<(), String>>) -> (r: Health)
        ensures
            match listing {
                None => r matches Health::Down(e) && e@ == "Kube client not available"@,
                Some(Ok(())) => r == Health::Up,
                Some(Err(m)) => r matches Health::Down(e) && e@ == m@,
            },
    {
        match listing {
            None => Health::Down(String::from_str("Kube client not available")),
            Some(Ok(())) => Health::Up,
            Some(Err(m)) => Health::Down(m),
        }
    }
}

/// What becomes of a freshly built status.
#[derive(Debug, Clone, Copy, PartialEq, Eq)]
pub enum StatusWrite {
    Replace,
    NotPrimary,
    Unavailable,
}

/// A status is written only over the current object, and only by the
/// primary instance.
pub fn status_write(current_fetched: bool, is_primary: bool) -> (r: StatusWrite)
    ensures
        r == if !current_fetched {
            StatusWrite::Unavailable
        } else if is_primary {
            StatusWrite::Replace
        } else {
            StatusWrite::NotPrimary
        },
{
    if !current_fetched {
        StatusWrite::Unavailable
    } else if is_primary {
        StatusWrite::Replace
    } else {
        StatusWrite::NotPrimary
    }
}

} // verus!
