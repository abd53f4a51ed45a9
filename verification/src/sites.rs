//! Sites: the areas, buildings and floors that the controller knows.

use vstd::prelude::*;
use crate::dnac::DNAC;
use crate::dnac::DNACValue;
use crate::envelope::FromJson;
use crate::envelope::Response;
use crate::identifier::format_uuid;
use crate::identifier::hyphenated;
use crate::identifier::identifier;
use crate::identifier::uuid_parsed;
use crate::json::Json;
use crate::json::JsonValue;
use crate::json::lemma_array_view;
use crate::pagination::Page;
use crate::pagination::Pagination;
use crate::pagination::page_of;
use crate::paging::FetchAll;
use crate::paging::FetchableType;
use crate::paging::Identified;
use crate::paging::owned;
use crate::text::same_text;
use crate::transport::Reply;
use crate::transport::ReplyValue;
use crate::transport::Request;
use crate::transport::RequestValue;
use crate::transport::TransportError;
use crate::transport::TransportErrorValue;

verus! {

/// Path of the site list.
pub const SITE_PATH: &'static str = "/dna/intent/api/v2/site";

/// The error code with which the controller says that no such site exists.
pub const NO_SUCH_SITE: &'static str = "NCGR10008";

/// The operations on sites.
pub struct Sites;

/// Where a site is.
#[derive(Debug, PartialEq)]
pub struct Location {
    country: Option<String>,
    address: Option<String>,
    latitude: Option<String>,
    address_inherited_from: String,
    location_type: String,
    longitude: Option<String>,
}

/// Model of [`Location`].
pub struct LocationValue {
    pub country: Option<Seq<char>>,
    pub address: Option<Seq<char>>,
    pub latitude: Option<Seq<char>>,
    pub address_inherited_from: Seq<char>,
    pub location_type: Seq<char>,
    pub longitude: Option<Seq<char>>,
}

/// A site. `additional_info` holds the attribute groups that the
/// controller reports with it, each under a name space.
#[derive(Debug, PartialEq)]
pub struct Site {
    pub id: u128,
    pub group_name_hierarchy: String,
    pub group_hierarchy: String,
    pub name: String,
    pub location: Option<Location>,
    pub additional_info: Option<Vec<Json>>,
}

/// Model of [`Site`].
pub struct SiteValue {
    pub id: u128,
    pub group_name_hierarchy: Seq<char>,
    pub group_hierarchy: Seq<char>,
    pub name: Seq<char>,
    pub location: Option<LocationValue>,
    pub additional_info: Option<Seq<JsonValue>>,
}

/// What a site list can be narrowed to: a name with its hierarchy, an
/// identifier, or a kind of site.
#[derive(Debug, PartialEq)]
pub enum SiteFilter {
    Name(String),
    SiteID(u128),
    Type(SiteType),
}

/// The kind of a site.
#[derive(Clone, Copy, Debug, PartialEq, Eq)]
pub enum SiteType {
    Area,
    Building,
    Floor,
}

/// Why an operation on sites came to nothing.
#[derive(Clone, Copy, Debug, PartialEq, Eq)]
pub enum SiteError {
    GeneralError,
    InvalidSite,
}

impl SiteError {
    /// The one line the error is reported with.
    pub open spec fn message(self) -> Seq<char> {
        match self {
            SiteError::GeneralError => "General Site Error"@,
            SiteError::InvalidSite => "Invalid Site"@,
        }
    }

    /// The one line this error is reported with.
    pub fn to_string(&self) -> (s: String)
        ensures
            s@ == self.message(),
    {
        match self {
            SiteError::GeneralError => "General Site Error".to_owned(),
            SiteError::InvalidSite => "Invalid Site".to_owned(),
        }
    }
}

impl SiteType {
    /// The name the controller uses for it.
    pub open spec fn name(self) -> Seq<char> {
        match self {
            SiteType::Area => "area"@,
            SiteType::Building => "building"@,
            SiteType::Floor => "floor"@,
        }
    }

    /// The name the controller uses for the kind.
    pub fn to_string(&self) -> (s: String)
        ensures
            s@ == self.name(),
    {
        match self {
            SiteType::Area => "area".to_owned(),
            SiteType::Building => "building".to_owned(),
            SiteType::Floor => "floor".to_owned(),
        }
    }
}

impl SiteFilter {
    /// The query parameter that stands for the filter.
    pub open spec fn parameter(self) -> (Seq<char>, Seq<char>) {
        match self {
            SiteFilter::Name(name) => ("name"@, name@),
            SiteFilter::SiteID(id) => ("siteId"@, hyphenated(id)),
            SiteFilter::Type(site_type) => ("type"@, site_type.name()),
        }
    }
}

/// The query of a site list.
pub open spec fn site_query(filter: Option<SiteFilter>) -> Seq<(Seq<char>, Seq<char>)> {
    match filter {
        Some(f) => seq![f.parameter()],
        None => Seq::empty(),
    }
}

impl DeepView for Location {
    type V = LocationValue;

    closed spec fn deep_view(&self) -> LocationValue {
        LocationValue {
            country: self.country.deep_view(),
            address: self.address.deep_view(),
            latitude: self.latitude.deep_view(),
            address_inherited_from: self.address_inherited_from@,
            location_type: self.location_type@,
            longitude: self.longitude.deep_view(),
        }
    }
}

impl DeepView for Site {
    type V = SiteValue;

    open spec fn deep_view(&self) -> SiteValue {
        SiteValue {
            id: self.id,
            group_name_hierarchy: self.group_name_hierarchy@,
            group_hierarchy: self.group_hierarchy@,
            name: self.name@,
            location: self.location.deep_view(),
            additional_info: self.additional_info.deep_view(),
        }
    }
}

impl Identified for Site {
    open spec fn ident(&self) -> u128 {
        self.id
    }

    fn id(&self) -> (r: u128) {
        self.id
    }
}

impl FromJson for Location {
    open spec fn decoded(j: JsonValue) -> Option<LocationValue> {
        match (
            j.optional_text("country"@),
            j.optional_text("address"@),
            j.optional_text("latitude"@),
            j.required_text("addressInheritedFrom"@),
            j.required_text("type"@),
            j.optional_text("longitude"@),
        ) {
            (
                Some(country),
                Some(address),
                Some(latitude),
                Some(address_inherited_from),
                Some(location_type),
                Some(longitude),
            ) => Some(
                LocationValue {
                    country,
                    address,
                    latitude,
                    address_inherited_from,
                    location_type,
                    longitude,
                },
            ),
            _ => None,
        }
    }

    fn from_json(j: &Json) -> (r: Option<Location>) {
        let country = j.optional_text("country");
        let address = j.optional_text("address");
        let latitude = j.optional_text("latitude");
        let address_inherited_from = j.required_text("addressInheritedFrom");
        let location_type = j.required_text("type");
        let longitude = j.optional_text("longitude");
        match (country, address, latitude, address_inherited_from, location_type, longitude) {
            (
                Some(country),
                Some(address),
                Some(latitude),
                Some(address_inherited_from),
                Some(location_type),
                Some(longitude),
            ) => Some(
                Location {
                    country,
                    address,
                    latitude,
                    address_inherited_from,
                    location_type,
                    longitude,
                },
            ),
            _ => None,
        }
    }
}

/// Whether an attribute group can be read: it names its name space, and
/// where that is `Location` its attributes are those of a location.
pub open spec fn readable_entry(entry: JsonValue) -> bool {
    match entry.required_text("nameSpace"@) {
        Some(name_space) => name_space == "Location"@ ==> (match entry.member("attributes"@) {
            Some(attributes) => Location::decoded(attributes) is Some,
            None => false,
        }),
        None => false,
    }
}

/// The location that a readable attribute group gives, if it is one of the
/// name space `Location`.
pub open spec fn entry_location(entry: JsonValue) -> Option<LocationValue> {
    if entry.required_text("nameSpace"@) == Some("Location"@) {
        match entry.member("attributes"@) {
            Some(attributes) => Location::decoded(attributes),
            None => None,
        }
    } else {
        None
    }
}

/// The location after the attribute groups `entries` have been read in
/// their order, starting from `start`: that of the last group that gives
/// one.
pub open spec fn located(entries: Seq<JsonValue>, start: Option<LocationValue>) -> Option<
    LocationValue,
>
    decreases entries.len(),
{
    if entries.len() == 0 {
        start
    } else {
        match entry_location(entries.last()) {
            Some(location) => Some(location),
            None => located(entries.drop_last(), start),
        }
    }
}

impl SiteValue {
    /// Whether every attribute group of the site can be read.
    pub open spec fn parseable(self) -> bool {
        match self.additional_info {
            Some(entries) => forall|i: int|
                0 <= i < entries.len() ==> readable_entry(#[trigger] entries[i]),
            None => true,
        }
    }

    /// The site with its location taken from its attribute groups.
    pub open spec fn parsed(self) -> SiteValue {
        SiteValue {
            id: self.id,
            group_name_hierarchy: self.group_name_hierarchy,
            group_hierarchy: self.group_hierarchy,
            name: self.name,
            location: match self.additional_info {
                Some(entries) => located(entries, self.location),
                None => self.location,
            },
            additional_info: self.additional_info,
        }
    }

    /// The country of the site's location, or the empty text.
    pub open spec fn country(self) -> Seq<char> {
        match self.location {
            Some(LocationValue { country: Some(c), .. }) => c,
            _ => Seq::empty(),
        }
    }

    /// The address of the site's location, or the empty text.
    pub open spec fn address(self) -> Seq<char> {
        match self.location {
            Some(LocationValue { address: Some(a), .. }) => a,
            _ => Seq::empty(),
        }
    }

    /// The latitude of the site's location, or the empty text.
    pub open spec fn latitude(self) -> Seq<char> {
        match self.location {
            Some(LocationValue { latitude: Some(l), .. }) => l,
            _ => Seq::empty(),
        }
    }

    /// The longitude of the site's location, or the empty text.
    pub open spec fn longitude(self) -> Seq<char> {
        match self.location {
            Some(LocationValue { longitude: Some(l), .. }) => l,
            _ => Seq::empty(),
        }
    }

    /// The kind of the site's location, or the empty text.
    pub open spec fn location_type(self) -> Seq<char> {
        match self.location {
            Some(l) => l.location_type,
            None => Seq::empty(),
        }
    }
}

/// Whether every site of `sites` can be parsed.
pub open spec fn all_parseable(sites: Seq<SiteValue>) -> bool {
    forall|i: int| 0 <= i < sites.len() ==> (#[trigger] sites[i]).parseable()
}

/// The sites of `sites`, each parsed.
pub open spec fn all_parsed(sites: Seq<SiteValue>) -> Seq<SiteValue> {
    Seq::new(sites.len(), |i: int| sites[i].parsed())
}

fn entry_is_location(entry: &Json) -> (r: Option<bool>)
    ensures
        match r {
            Some(is_location) => entry.deep_view().required_text("nameSpace"@) is Some
                && is_location == (entry.deep_view().required_text("nameSpace"@) == Some(
                "Location"@,
            )),
            None => entry.deep_view().required_text("nameSpace"@) is None,
        },
{
    match entry.required_text("nameSpace") {
        Some(name_space) => Some(same_text(name_space.as_str(), "Location")),
        None => None,
    }
}

fn read_entry(entry: &Json) -> (r: Option<Option<Location>>)
    ensures
        r is Some == readable_entry(entry.deep_view()),
        r matches Some(location) ==> location.deep_view() == entry_location(entry.deep_view()),
{
    match entry_is_location(entry) {
        Some(true) => match entry.get("attributes") {
            Some(attributes) => match Location::from_json(attributes) {
                Some(location) => Some(Some(location)),
                None => None,
            },
            None => None,
        },
        Some(false) => Some(None),
        None => None,
    }
}

impl Site {
    /// Whether every attribute group of the site can be read, so that
    /// [`Site::parse`] may be called.
    #[verifier::loop_isolation(false)]
    pub fn parseable(&self) -> (r: bool)
        ensures
            r == self.deep_view().parseable(),
    {
        match &self.additional_info {
            Some(entries) => {
                let mut i: usize = 0;
                while i < entries.len()
                    invariant
                        i <= entries.len(),
                        forall|k: int|
                            0 <= k < i ==> readable_entry(#[trigger] entries.deep_view()[k]),
                    decreases entries.len() - i,
                {
                    assert(entries.deep_view()[i as int] == entries@[i as int].deep_view());
                    if read_entry(&entries[i]).is_none() {
                        proof {
                            let groups = self.deep_view().additional_info->0;
                            assert(self.additional_info == Some(*entries));
                            assert(groups == entries.deep_view());
                            assert(!readable_entry(groups[i as int]));
                        }
                        return false;
                    }
                    i += 1;
                }
                true
            },
            None => true,
        }
    }

    /// Takes the location from the attribute groups, in place.
    fn locate(&mut self)
        requires
            old(self).deep_view().parseable(),
        ensures
            final(self).deep_view() == old(self).deep_view().parsed(),
    {
        let ghost start = self.location.deep_view();
        if let Some(entries) = &self.additional_info {
            let mut i: usize = 0;
            while i < entries.len()
                invariant
                    i <= entries.len(),
                    self.additional_info == old(self).additional_info,
                    self.additional_info == Some(*entries),
                    self.id == old(self).id,
                    self.group_name_hierarchy == old(self).group_name_hierarchy,
                    self.group_hierarchy == old(self).group_hierarchy,
                    self.name == old(self).name,
                    forall|k: int|
                        0 <= k < entries.len() ==> readable_entry(#[trigger] entries.deep_view()[k]),
                    self.location.deep_view() == located(
                        entries.deep_view().take(i as int),
                        start,
                    ),
                decreases entries.len() - i,
            {
                proof {
                    let next = entries.deep_view().take(i + 1);
                    assert(next.drop_last() =~= entries.deep_view().take(i as int));
                    assert(next.last() == entries@[i as int].deep_view());
                    assert(readable_entry(entries.deep_view()[i as int]));
                }
                match read_entry(&entries[i]) {
                    Some(Some(found)) => {
                        self.location = Some(found);
                    },
                    _ => {},
                }
                i += 1;
            }
            assert(entries.deep_view().take(entries.len() as int) =~= entries.deep_view());
        }
    }

    /// Takes the site's location from its attribute groups: the attributes
    /// of the last group of the name space `Location` replace it. A site
    /// without attribute groups is returned as it is.
    pub fn parse(self) -> (r: Site)
        requires
            self.deep_view().parseable(),
        ensures
            r.deep_view() == self.deep_view().parsed(),
    {
        let mut site = self;
        site.locate();
        site
    }

    /// The country of the site's location, or the empty text.
    pub fn get_country(&self) -> (s: String)
        ensures
            s@ == self.deep_view().country(),
    {
        match &self.location {
            Some(location) => match &location.country {
                Some(country) => country.clone(),
                None => String::new(),
            },
            None => String::new(),
        }
    }

    /// The address of the site's location, or the empty text.
    pub fn get_address(&self) -> (s: String)
        ensures
            s@ == self.deep_view().address(),
    {
        match &self.location {
            Some(location) => match &location.address {
                Some(address) => address.clone(),
                None => String::new(),
            },
            None => String::new(),
        }
    }

    /// The latitude of the site's location, or the empty text.
    pub fn get_latitude(&self) -> (s: String)
        ensures
            s@ == self.deep_view().latitude(),
    {
        match &self.location {
            Some(location) => match &location.latitude {
                Some(latitude) => latitude.clone(),
                None => String::new(),
            },
            None => String::new(),
        }
    }

    /// The longitude of the site's location, or the empty text.
    pub fn get_longitude(&self) -> (s: String)
        ensures
            s@ == self.deep_view().longitude(),
    {
        match &self.location {
            Some(location) => match &location.longitude {
                Some(longitude) => longitude.clone(),
                None => String::new(),
            },
            None => String::new(),
        }
    }

    /// The kind of the site's location, or the empty text.
    pub fn get_location_type(&self) -> (s: String)
        ensures
            s@ == self.deep_view().location_type(),
    {
        match &self.location {
            Some(location) => location.location_type.clone(),
            None => String::new(),
        }
    }

    /// The identifier that the member `id` of `j` holds.
    pub open spec fn id_of(j: JsonValue) -> Option<u128> {
        match j.required_text("id"@) {
            Some(t) => uuid_parsed(t),
            None => None,
        }
    }

    /// The location that the optional member `location` of `j` holds.
    pub open spec fn location_of(j: JsonValue) -> Option<Option<LocationValue>> {
        match j.optional_value("location"@) {
            Some(v) => match Location::decoded(v) {
                Some(l) => Some(Some(l)),
                None => None,
            },
            None => Some(None),
        }
    }

    /// The attribute groups that the optional member `additionalInfo` of
    /// `j` holds.
    pub open spec fn additional_of(j: JsonValue) -> Option<Option<Seq<JsonValue>>> {
        match j.optional_value("additionalInfo"@) {
            Some(JsonValue::Array(entries)) => Some(Some(entries)),
            Some(_) => None,
            None => Some(None),
        }
    }
}

impl Site {
    /// The site that `j` holds, where `id` is what the reading of its
    /// identifier gave.
    pub open spec fn assembled(id: Option<u128>, j: JsonValue) -> Option<SiteValue> {
        match (
            id,
            j.required_text("groupNameHierarchy"@),
            j.required_text("groupHierarchy"@),
            j.required_text("name"@),
            Site::location_of(j),
            Site::additional_of(j),
        ) {
            (
                Some(id),
                Some(group_name_hierarchy),
                Some(group_hierarchy),
                Some(name),
                Some(location),
                Some(additional_info),
            ) => Some(
                SiteValue {
                    id,
                    group_name_hierarchy,
                    group_hierarchy,
                    name,
                    location,
                    additional_info,
                },
            ),
            _ => None,
        }
    }

    /// Reads a site from `j`, with the identifier that was read from its
    /// member `id` (`None` where that is no identifier).
    pub fn assemble(id: Option<u128>, j: &Json) -> (r: Option<Site>)
        ensures
            r.deep_view() == Site::assembled(id, j.deep_view()),
    {
        let group_name_hierarchy = j.required_text("groupNameHierarchy");
        let group_hierarchy = j.required_text("groupHierarchy");
        let name = j.required_text("name");
        let location = match j.optional_value("location") {
            Some(v) => match Location::from_json(&v) {
                Some(l) => Some(Some(l)),
                None => None,
            },
            None => Some(None),
        };
        let additional_info = match j.optional_value("additionalInfo") {
            Some(Json::Array(entries)) => {
                proof {
                    lemma_array_view(entries);
                }
                Some(Some(entries))
            },
            Some(_) => None,
            None => Some(None),
        };
        match (id, group_name_hierarchy, group_hierarchy, name, location, additional_info) {
            (
                Some(id),
                Some(group_name_hierarchy),
                Some(group_hierarchy),
                Some(name),
                Some(location),
                Some(additional_info),
            ) => Some(
                Site { id, group_name_hierarchy, group_hierarchy, name, location, additional_info },
            ),
            _ => None,
        }
    }
}

impl FromJson for Site {
    open spec fn decoded(j: JsonValue) -> Option<SiteValue> {
        Site::assembled(Site::id_of(j), j)
    }

    fn from_json(j: &Json) -> (r: Option<Site>) {
        let id = match j.required_text("id") {
            Some(t) => identifier(t.as_str()),
            None => None,
        };
        Site::assemble(id, j)
    }
}

impl Sites {
    /// What a reply to the list request holds: the sites of the envelope,
    /// one or many, each parsed. The controller's error for an unknown
    /// site is told apart; every other failure, and a site whose attribute
    /// groups cannot be read, gives the general error.
    pub open spec fn listed_sites(reply: ReplyValue) -> Result<Seq<SiteValue>, SiteError> {
        match reply.read::<Response<Site>>() {
            Ok(envelope) => if all_parseable(envelope.response.items()) {
                Ok(all_parsed(envelope.response.items()))
            } else {
                Err(SiteError::GeneralError)
            },
            Err(TransportErrorValue::Api(e)) => if e.response.error_code == NO_SUCH_SITE@ {
                Err(SiteError::InvalidSite)
            } else {
                Err(SiteError::GeneralError)
            },
            Err(_) => Err(SiteError::GeneralError),
        }
    }

    /// The request for one page of the site list.
    pub fn get_site(
        dnac: &DNAC,
        filter: Option<&SiteFilter>,
        pagination: Option<Pagination>,
    ) -> (r: Request)
        ensures
            r.deep_view() == dnac.deep_view().get_request(
                SITE_PATH@,
                Some(site_query(owned(filter))),
                page_of(pagination),
            ),
    {
        let mut query: Vec<(String, String)> = Vec::new();
        match filter {
            Some(SiteFilter::Name(name)) => {
                query.push(("name".to_owned(), name.clone()));
            },
            Some(SiteFilter::SiteID(id)) => {
                query.push(("siteId".to_owned(), format_uuid(*id)));
            },
            Some(SiteFilter::Type(site_type)) => {
                query.push(("type".to_owned(), site_type.to_string()));
            },
            None => {},
        }
        assert(query.deep_view() =~= site_query(owned(filter)));
        dnac.get(SITE_PATH, Some(&query), pagination)
    }

    /// Reads the reply to [`Self::get_site`].
    #[verifier::loop_isolation(false)]
    pub fn read_sites(reply: &Reply) -> (r: Result<Vec<Site>, SiteError>)
        ensures
            match r {
                Ok(items) => Self::listed_sites(reply.deep_view()) == Ok::<
                    Seq<SiteValue>,
                    SiteError,
                >(items.deep_view()),
                Err(e) => Self::listed_sites(reply.deep_view()) == Err::<Seq<SiteValue>, SiteError>(
                    e,
                ),
            },
    {
        match reply.read::<Response<Site>>() {
            Ok(envelope) => {
                let ghost payload = envelope.response;
                let mut raw = envelope.response.into_vec();
                proof {
                    crate::envelope::lemma_items_view(payload);
                    assert(raw.deep_view() =~= payload.deep_view().items());
                }
                let ghost listed = raw.deep_view();
                let mut i: usize = 0;
                while i < raw.len()
                    invariant
                        i <= raw.len(),
                        raw.len() == listed.len(),
                        forall|k: int| 0 <= k < i ==> (#[trigger] listed[k]).parseable(),
                        forall|k: int|
                            0 <= k < i ==> (#[trigger] raw@[k]).deep_view() == listed[k].parsed(),
                        forall|k: int|
                            i <= k < raw.len() ==> (#[trigger] raw@[k]).deep_view() == listed[k],
                    decreases raw.len() - i,
                {
                    if !raw[i].parseable() {
                        assert(!listed[i as int].parseable());
                        return Err(SiteError::GeneralError);
                    }
                    raw[i].locate();
                    i += 1;
                }
                assert(raw.deep_view() =~= all_parsed(listed));
                Ok(raw)
            },
            Err(TransportError::Api(e)) => {
                if same_text(e.response.error_code.as_str(), NO_SUCH_SITE) {
                    Err(SiteError::InvalidSite)
                } else {
                    Err(SiteError::GeneralError)
                }
            },
            Err(_) => Err(SiteError::GeneralError),
        }
    }

    /// The fetch of all sites, of one kind or of any.
    pub fn get_all_sites(site_type: Option<SiteType>) -> (f: FetchAll<Site>)
        ensures
            f.spec_filter() == match site_type {
                Some(t) => Some(SiteFilter::Type(t)),
                None => None,
            },
            f.state() == crate::paging::CollectorState::<Site>::start(500),
    {
        let filter = match site_type {
            Some(t) => Some(SiteFilter::Type(t)),
            None => None,
        };
        FetchAll::new(filter)
    }
}

impl FetchableType for Site {
    type Filter = SiteFilter;

    type Error = SiteError;

    open spec fn list_request(
        dnac: DNACValue,
        filter: Option<SiteFilter>,
        pagination: Option<Page>,
    ) -> RequestValue {
        dnac.get_request(SITE_PATH@, Some(site_query(filter)), pagination)
    }

    open spec fn listed(reply: ReplyValue) -> Result<Seq<SiteValue>, SiteError> {
        Sites::listed_sites(reply)
    }

    fn fetch_list(
        dnac: &DNAC,
        filter: Option<&SiteFilter>,
        pagination: Option<Pagination>,
    ) -> (r: Request) {
        Sites::get_site(dnac, filter, pagination)
    }

    fn read_list(reply: &Reply) -> (r: Result<Vec<Site>, SiteError>) {
        Sites::read_sites(reply)
    }
}

} // verus!
