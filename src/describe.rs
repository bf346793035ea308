//! Human-readable text of the messages whose content is text and integers.
use crate::messages::{
    AppCharcs, ApplicationListInfo, CivicAddressElement, ProblemDetails, VendorSpecificExt,
};
use crate::text::{decimal, decimal_text};
use vstd::prelude::*;

verus! {

/// A service-continuity value in words.
pub open spec fn service_cont_text(s: Option<u32>) -> Seq<char> {
    match s {
        Some(x) => if x == 0 {
            "not required"@
        } else if x == 1 {
            "required"@
        } else {
            "invalid value"@
        },
        None => "not specified"@,
    }
}

/// Describes a service-continuity value in words.
pub fn service_cont_to_string(s: Option<u32>) -> (r: String)
    ensures
        r@ == service_cont_text(s),
{
    match s {
        Some(x) => if x == 0 {
            "not required".to_string()
        } else if x == 1 {
            "required".to_string()
        } else {
            "invalid value".to_string()
        },
        None => "not specified".to_string(),
    }
}

/// An optional text, or `not specified`.
pub open spec fn or_not_specified(s: Option<Seq<char>>) -> Seq<char> {
    match s {
        Some(x) => x,
        None => "not specified"@,
    }
}

/// The text of an optional value, or `not specified` when it is absent.
pub fn value_or_not_specified(s: &Option<String>) -> (r: &str)
    ensures
        r@ == or_not_specified(s.deep_view()),
{
    match s {
        Some(x) => x.as_str(),
        None => "not specified",
    }
}

/// The decimal notation of an integer, with a leading `-` when negative.
pub open spec fn signed_decimal(x: int) -> Seq<char> {
    if x < 0 {
        "-"@ + decimal((-x) as nat)
    } else {
        decimal(x as nat)
    }
}

fn signed_decimal_text(x: i32) -> (r: String)
    ensures
        r@ == signed_decimal(x as int),
{
    if x < 0 {
        let mut t = "-".to_string();
        let magnitude = decimal_text((-(x as i64)) as u64);
        t.append(magnitude.as_str());
        t
    } else {
        decimal_text(x as u64)
    }
}

impl ProblemDetails {
    /// `<status> (<detail>)`.
    pub fn to_text(&self) -> (r: String)
        ensures
            r@ == decimal(self.status as nat) + " ("@ + self.detail@ + ")"@,
    {
        let mut t = decimal_text(self.status as u64);
        t.append(" (");
        t.append(self.detail.as_str());
        t.append(")");
        t
    }
}

impl CivicAddressElement {
    /// `<caType> <caValue>`.
    pub fn to_text(&self) -> (r: String)
        ensures
            r@ == signed_decimal(self.caType as int) + " "@ + self.caValue@,
    {
        let mut t = signed_decimal_text(self.caType);
        t.append(" ");
        t.append(self.caValue.as_str());
        t
    }
}

impl VendorSpecificExt {
    /// `vendorId: <vendorId>`.
    pub fn to_text(&self) -> (r: String)
        ensures
            r@ == "vendorId: "@ + self.vendorId@,
    {
        let mut t = "vendorId: ".to_string();
        t.append(self.vendorId.as_str());
        t
    }
}

/// An optional amount, or 0 when it is absent.
pub open spec fn amount(x: Option<u32>) -> nat {
    match x {
        Some(v) => v as nat,
        None => 0,
    }
}

impl AppCharcs {
    /// The resources in their units, absent ones as 0, and the service
    /// continuity in words.
    pub fn to_text(&self) -> (r: String)
        ensures
            r@ == "memory: "@ + decimal(amount(self.memory)) + " MB, storage: "@ + decimal(
                amount(self.storage),
            ) + " MB, latency: "@ + decimal(amount(self.latency)) + " ms, bandwidth: "@
                + decimal(amount(self.bandwidth)) + " kb/s, continuity "@ + service_cont_text(
                self.serviceCont,
            ),
    {
        let mut t = "memory: ".to_string();
        t.append(decimal_text(self.memory.unwrap_or(0) as u64).as_str());
        t.append(" MB, storage: ");
        t.append(decimal_text(self.storage.unwrap_or(0) as u64).as_str());
        t.append(" MB, latency: ");
        t.append(decimal_text(self.latency.unwrap_or(0) as u64).as_str());
        t.append(" ms, bandwidth: ");
        t.append(decimal_text(self.bandwidth.unwrap_or(0) as u64).as_str());
        t.append(" kb/s, continuity ");
        t.append(service_cont_to_string(self.serviceCont).as_str());
        t
    }
}

impl ApplicationListInfo {
    /// Every criterion of the query, absent ones as `not specified`.
    pub fn to_text(&self) -> (r: String)
        ensures
            r@ == "appName: "@ + or_not_specified(self@.appName) + ", appProvider: "@
                + or_not_specified(self@.appProvider) + ", appSoftVersion: "@ + or_not_specified(
                self@.appSoftVersion,
            ) + ", serviceCont: "@ + service_cont_text(self.serviceCont) + ", vendorId: "@
                + or_not_specified(self@.vendorId),
    {
        let mut t = "appName: ".to_string();
        t.append(value_or_not_specified(&self.appName));
        t.append(", appProvider: ");
        t.append(value_or_not_specified(&self.appProvider));
        t.append(", appSoftVersion: ");
        t.append(value_or_not_specified(&self.appSoftVersion));
        t.append(", serviceCont: ");
        t.append(service_cont_to_string(self.serviceCont).as_str());
        t.append(", vendorId: ");
        t.append(value_or_not_specified(&self.vendorId));
        t
    }
}

} // verus!
