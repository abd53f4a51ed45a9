//! Platform information: the release that the controller runs.

use vstd::prelude::*;
use crate::dnac::DNAC;
use crate::envelope::FromJson;
use crate::envelope::Response;
use crate::envelope::ResponseType;
use crate::envelope::ResponseTypeValue;
use crate::envelope::ResponseValue;
use crate::json::Json;
use crate::json::JsonValue;
use crate::transport::Reply;
use crate::transport::ReplyValue;
use crate::transport::Request;
use crate::transport::TransportError;
use crate::transport::TransportErrorValue;

verus! {

/// Path of the release summary.
pub const RELEASE_PATH: &'static str = "/dna/intent/api/v1/dnac-release";

/// The release summary of the controller.
#[derive(Debug, PartialEq)]
pub struct ReleaseSummary {
    pub name: String,
    pub core_packages: Vec<String>,
    pub display_name: String,
    pub display_version: String,
    pub packages: Vec<String>,
    pub previous_version: Option<String>,
    pub supported_direct_updates: Vec<String>,
    pub system_packages: Vec<String>,
    pub system_version: String,
    pub tenant_id: String,
    pub installed_version: String,
}

/// Model of [`ReleaseSummary`].
pub struct ReleaseSummaryValue {
    pub name: Seq<char>,
    pub core_packages: Seq<Seq<char>>,
    pub display_name: Seq<char>,
    pub display_version: Seq<char>,
    pub packages: Seq<Seq<char>>,
    pub previous_version: Option<Seq<char>>,
    pub supported_direct_updates: Seq<Seq<char>>,
    pub system_packages: Seq<Seq<char>>,
    pub system_version: Seq<char>,
    pub tenant_id: Seq<char>,
    pub installed_version: Seq<char>,
}

impl DeepView for ReleaseSummary {
    type V = ReleaseSummaryValue;

    open spec fn deep_view(&self) -> ReleaseSummaryValue {
        ReleaseSummaryValue {
            name: self.name@,
            core_packages: self.core_packages.deep_view(),
            display_name: self.display_name@,
            display_version: self.display_version@,
            packages: self.packages.deep_view(),
            previous_version: self.previous_version.deep_view(),
            supported_direct_updates: self.supported_direct_updates.deep_view(),
            system_packages: self.system_packages.deep_view(),
            system_version: self.system_version@,
            tenant_id: self.tenant_id@,
            installed_version: self.installed_version@,
        }
    }
}

impl ReleaseSummary {
    /// Whether `j` has the members of a release summary.
    pub open spec fn shaped(j: JsonValue) -> bool {
        &&& j.required_text("name"@) is Some
        &&& j.required_texts("corePackages"@) is Some
        &&& j.required_text("displayName"@) is Some
        &&& j.required_text("displayVersion"@) is Some
        &&& j.required_texts("packages"@) is Some
        &&& j.optional_text("previous_version"@) is Some
        &&& j.required_texts("supportedDirectUpdates"@) is Some
        &&& j.required_texts("systemPackages"@) is Some
        &&& j.required_text("systemVersion"@) is Some
        &&& j.required_text("tenantId"@) is Some
        &&& j.required_text("installedVersion"@) is Some
    }

    /// The summary that a well-shaped `j` holds.
    pub open spec fn assembled(j: JsonValue) -> ReleaseSummaryValue {
        ReleaseSummaryValue {
            name: j.required_text("name"@)->0,
            core_packages: j.required_texts("corePackages"@)->0,
            display_name: j.required_text("displayName"@)->0,
            display_version: j.required_text("displayVersion"@)->0,
            packages: j.required_texts("packages"@)->0,
            previous_version: j.optional_text("previous_version"@)->0,
            supported_direct_updates: j.required_texts("supportedDirectUpdates"@)->0,
            system_packages: j.required_texts("systemPackages"@)->0,
            system_version: j.required_text("systemVersion"@)->0,
            tenant_id: j.required_text("tenantId"@)->0,
            installed_version: j.required_text("installedVersion"@)->0,
        }
    }

    /// What a reply to the release request holds: the summary, which must
    /// come as a single item.
    pub open spec fn read_spec(reply: ReplyValue) -> Result<
        ReleaseSummaryValue,
        TransportErrorValue,
    > {
        match reply.read::<Response<ReleaseSummary>>() {
            Ok(ResponseValue { response: ResponseTypeValue::Item(summary) }) => Ok(summary),
            Ok(_) => Err(TransportErrorValue::Unexpected),
            Err(e) => Err(e),
        }
    }

    /// The request for the release summary.
    pub fn get_release_summary(dnac: &DNAC) -> (r: Request)
        ensures
            r.deep_view() == dnac.deep_view().get_request(RELEASE_PATH@, None, None),
    {
        dnac.get(RELEASE_PATH, None, None)
    }

    /// Reads the reply to [`Self::get_release_summary`].
    pub fn read(reply: &Reply) -> (r: Result<ReleaseSummary, TransportError>)
        ensures
            match r {
                Ok(v) => Self::read_spec(reply.deep_view()) == Ok::<
                    ReleaseSummaryValue,
                    TransportErrorValue,
                >(v.deep_view()),
                Err(e) => Self::read_spec(reply.deep_view()) == Err::<
                    ReleaseSummaryValue,
                    TransportErrorValue,
                >(e.deep_view()),
            },
    {
        match reply.read::<Response<ReleaseSummary>>() {
            Ok(envelope) => match envelope.response {
                ResponseType::Item(summary) => Ok(summary),
                ResponseType::Array(_) => Err(TransportError::Unexpected),
            },
            Err(e) => Err(e),
        }
    }
}

impl FromJson for ReleaseSummary {
    open spec fn decoded(j: JsonValue) -> Option<ReleaseSummaryValue> {
        if ReleaseSummary::shaped(j) {
            Some(ReleaseSummary::assembled(j))
        } else {
            None
        }
    }

    fn from_json(j: &Json) -> (r: Option<ReleaseSummary>) {
        let name = j.required_text("name")?;
        let core_packages = j.required_texts("corePackages")?;
        let display_name = j.required_text("displayName")?;
        let display_version = j.required_text("displayVersion")?;
        let packages = j.required_texts("packages")?;
        let previous_version = j.optional_text("previous_version")?;
        let supported_direct_updates = j.required_texts("supportedDirectUpdates")?;
        let system_packages = j.required_texts("systemPackages")?;
        let system_version = j.required_text("systemVersion")?;
        let tenant_id = j.required_text("tenantId")?;
        let installed_version = j.required_text("installedVersion")?;
        Some(
            ReleaseSummary {
                name,
                core_packages,
                display_name,
                display_version,
                packages,
                previous_version,
                supported_direct_updates,
                system_packages,
                system_version,
                tenant_id,
                installed_version,
            },
        )
    }
}

} // verus!
