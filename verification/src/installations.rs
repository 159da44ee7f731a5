//! Installations and what the API tells about them.

use crate::decode::{
    optional, required, spec_decode_all, spec_optional, spec_required, Decode,
};
use crate::json::{Json, JsonValue, Number};
use vstd::prelude::*;

verus! {

/// Represents all information an installation has.
#[derive(Debug, Clone, PartialEq, Eq)]
pub struct Installation {
    pub site_id: i32,
    /// The access level of the requesting user
    pub access_level: i32,
    /// True if the requesting user owns this installation
    pub owner: bool,
    /// True if the requesting user is an admin for this installation
    pub is_admin: bool,
    pub name: String,
    pub identifier: String,
    /// Installation owner's id
    pub user_id: i32,
    /// Maximum PV for this installation
    pub pv_max: i32,
    pub timezone: String,
    pub phone_number: Option<String>,
    pub notes: Option<String>,
    /// Installation geofence, in json format
    pub geofence: Option<String>,
    pub geofence_enabled: bool,
    pub realtime_updates: bool,
    pub has_mains: i8,
    pub has_generator: i8,
    /// How many seconds after no installation data is received an alarm
    /// should be triggered
    pub no_data_alarm_timeout: Option<i32>,
    /// If alarms and warnings should be sent.
    ///
    /// - 0: Nothing is sent out
    /// - 1: Only alarms
    /// - 2: Alarms and warnings
    pub alarm_monitoring: i8,
    /// 1 if an invalid token was used for logging, else 0
    pub invalid_vrm_auth_token_used_in_log_request: i8,
    /// Installation creation timestamp, UNIX timestamp
    pub sys_created: i64,
    pub shared: bool,
    pub device_icon: String,
    pub alarm: Option<bool>,
    /// Timestamp of the most recently received data, UNIX timestamp
    pub last_timestamp: Option<i64>,
    /// The current time of the installation in 24h format (hh:mm)
    pub current_time: Option<String>,
    /// How many seconds the installation is off from UTC
    pub timezone_offset: Option<i32>,
    pub demo_mode: Option<bool>,
    pub mqtt_webhost: Option<String>,
    pub mqtt_host: Option<String>,
    /// True if the D-Bus round trip time is higher than the threshold
    pub high_workload: Option<bool>,
    pub current_alarms: Option<Vec<String>>,
    pub num_alarms: Option<i32>,
    pub avatar_url: Option<String>,
    pub tags: Option<Vec<Tag>>,
    pub images: Option<Vec<Image>>,
    /// Installation view permissions for the requesting user.
    pub view_permissions: Option<ViewPermissions>,
    /// Extended telemetry: one entry for each item of the list under
    /// `extended`, and none where there is no list.
    pub extended: Option<Vec<Extended>>,
}

/// The value of an [`Installation`].
pub struct InstallationView {
    pub site_id: i32,
    pub access_level: i32,
    pub owner: bool,
    pub is_admin: bool,
    pub name: Seq<char>,
    pub identifier: Seq<char>,
    pub user_id: i32,
    pub pv_max: i32,
    pub timezone: Seq<char>,
    pub phone_number: Option<Seq<char>>,
    pub notes: Option<Seq<char>>,
    pub geofence: Option<Seq<char>>,
    pub geofence_enabled: bool,
    pub realtime_updates: bool,
    pub has_mains: i8,
    pub has_generator: i8,
    pub no_data_alarm_timeout: Option<i32>,
    pub alarm_monitoring: i8,
    pub invalid_vrm_auth_token_used_in_log_request: i8,
    pub sys_created: i64,
    pub shared: bool,
    pub device_icon: Seq<char>,
    pub alarm: Option<bool>,
    pub last_timestamp: Option<i64>,
    pub current_time: Option<Seq<char>>,
    pub timezone_offset: Option<i32>,
    pub demo_mode: Option<bool>,
    pub mqtt_webhost: Option<Seq<char>>,
    pub mqtt_host: Option<Seq<char>>,
    pub high_workload: Option<bool>,
    pub current_alarms: Option<Seq<Seq<char>>>,
    pub num_alarms: Option<i32>,
    pub avatar_url: Option<Seq<char>>,
    pub tags: Option<Seq<TagView>>,
    pub images: Option<Seq<ImageView>>,
    pub view_permissions: Option<ViewPermissions>,
    pub extended: Option<Seq<ExtendedView>>,
}

impl DeepView for Installation {
    type V = InstallationView;

    open spec fn deep_view(&self) -> InstallationView {
        InstallationView {
            site_id: self.site_id,
            access_level: self.access_level,
            owner: self.owner,
            is_admin: self.is_admin,
            name: self.name@,
            identifier: self.identifier@,
            user_id: self.user_id,
            pv_max: self.pv_max,
            timezone: self.timezone@,
            phone_number: self.phone_number.deep_view(),
            notes: self.notes.deep_view(),
            geofence: self.geofence.deep_view(),
            geofence_enabled: self.geofence_enabled,
            realtime_updates: self.realtime_updates,
            has_mains: self.has_mains,
            has_generator: self.has_generator,
            no_data_alarm_timeout: self.no_data_alarm_timeout,
            alarm_monitoring: self.alarm_monitoring,
            invalid_vrm_auth_token_used_in_log_request: self
                .invalid_vrm_auth_token_used_in_log_request,
            sys_created: self.sys_created,
            shared: self.shared,
            device_icon: self.device_icon@,
            alarm: self.alarm,
            last_timestamp: self.last_timestamp,
            current_time: self.current_time.deep_view(),
            timezone_offset: self.timezone_offset,
            demo_mode: self.demo_mode,
            mqtt_webhost: self.mqtt_webhost.deep_view(),
            mqtt_host: self.mqtt_host.deep_view(),
            high_workload: self.high_workload,
            current_alarms: self.current_alarms.deep_view(),
            num_alarms: self.num_alarms,
            avatar_url: self.avatar_url.deep_view(),
            tags: self.tags.deep_view(),
            images: self.images.deep_view(),
            view_permissions: self.view_permissions.deep_view(),
            extended: self.extended.deep_view(),
        }
    }
}

impl Installation {
    /// Whether a document is an object in which every member of the record
    /// can be read.
    pub open spec fn spec_complete(j: JsonValue) -> bool {
        &&& j is Object
        &&& spec_required::<i32>(j, "idSite"@) is Some
        &&& spec_required::<i32>(j, "accessLevel"@) is Some
        &&& spec_required::<bool>(j, "owner"@) is Some
        &&& spec_required::<bool>(j, "is_admin"@) is Some
        &&& spec_required::<String>(j, "name"@) is Some
        &&& spec_required::<String>(j, "identifier"@) is Some
        &&& spec_required::<i32>(j, "idUser"@) is Some
        &&& spec_required::<i32>(j, "pvMax"@) is Some
        &&& spec_required::<String>(j, "timezone"@) is Some
        &&& spec_optional::<String>(j, "phonenumber"@) is Some
        &&& spec_optional::<String>(j, "notes"@) is Some
        &&& spec_optional::<String>(j, "geofence"@) is Some
        &&& spec_required::<bool>(j, "geofenceEnabled"@) is Some
        &&& spec_required::<bool>(j, "realtimeUpdates"@) is Some
        &&& spec_required::<i8>(j, "hasMains"@) is Some
        &&& spec_required::<i8>(j, "hasGenerator"@) is Some
        &&& spec_optional::<i32>(j, "noDataAlarmTimeout"@) is Some
        &&& spec_required::<i8>(j, "alarmMonitoring"@) is Some
        &&& spec_required::<i8>(j, "invalidVRMAuthTokenUsedInLogRequest"@) is Some
        &&& spec_required::<i64>(j, "syscreated"@) is Some
        &&& spec_required::<bool>(j, "shared"@) is Some
        &&& spec_required::<String>(j, "device_icon"@) is Some
        &&& spec_optional::<bool>(j, "alarm"@) is Some
        &&& spec_optional::<i64>(j, "last_timestamp"@) is Some
        &&& spec_optional::<String>(j, "current_time"@) is Some
        &&& spec_optional::<i32>(j, "timezone_offset"@) is Some
        &&& spec_optional::<bool>(j, "demo_mode"@) is Some
        &&& spec_optional::<String>(j, "mqtt_webhost"@) is Some
        &&& spec_optional::<String>(j, "mqtt_host"@) is Some
        &&& spec_optional::<bool>(j, "high_workload"@) is Some
        &&& spec_optional::<Vec<String>>(j, "current_alarms"@) is Some
        &&& spec_optional::<i32>(j, "num_alarms"@) is Some
        &&& spec_optional::<String>(j, "avatar_url"@) is Some
        &&& spec_optional::<Vec<Tag>>(j, "tags"@) is Some
        &&& spec_optional::<Vec<Image>>(j, "images"@) is Some
        &&& spec_optional::<ViewPermissions>(j, "view_permissions"@) is Some
        &&& spec_extended(j) is Some
    }
}

impl Decode for Installation {
    open spec fn spec_decode(j: JsonValue) -> Option<InstallationView> {
        if Self::spec_complete(j) {
            Some(
                InstallationView {
                    site_id: spec_required::<i32>(j, "idSite"@)->0,
                    access_level: spec_required::<i32>(j, "accessLevel"@)->0,
                    owner: spec_required::<bool>(j, "owner"@)->0,
                    is_admin: spec_required::<bool>(j, "is_admin"@)->0,
                    name: spec_required::<String>(j, "name"@)->0,
                    identifier: spec_required::<String>(j, "identifier"@)->0,
                    user_id: spec_required::<i32>(j, "idUser"@)->0,
                    pv_max: spec_required::<i32>(j, "pvMax"@)->0,
                    timezone: spec_required::<String>(j, "timezone"@)->0,
                    phone_number: spec_optional::<String>(j, "phonenumber"@)->0,
                    notes: spec_optional::<String>(j, "notes"@)->0,
                    geofence: spec_optional::<String>(j, "geofence"@)->0,
                    geofence_enabled: spec_required::<bool>(j, "geofenceEnabled"@)->0,
                    realtime_updates: spec_required::<bool>(j, "realtimeUpdates"@)->0,
                    has_mains: spec_required::<i8>(j, "hasMains"@)->0,
                    has_generator: spec_required::<i8>(j, "hasGenerator"@)->0,
                    no_data_alarm_timeout: spec_optional::<i32>(j, "noDataAlarmTimeout"@)->0,
                    alarm_monitoring: spec_required::<i8>(j, "alarmMonitoring"@)->0,
                    invalid_vrm_auth_token_used_in_log_request: spec_required::<i8>(
                        j,
                        "invalidVRMAuthTokenUsedInLogRequest"@,
                    )->0,
                    sys_created: spec_required::<i64>(j, "syscreated"@)->0,
                    shared: spec_required::<bool>(j, "shared"@)->0,
                    device_icon: spec_required::<String>(j, "device_icon"@)->0,
                    alarm: spec_optional::<bool>(j, "alarm"@)->0,
                    last_timestamp: spec_optional::<i64>(j, "last_timestamp"@)->0,
                    current_time: spec_optional::<String>(j, "current_time"@)->0,
                    timezone_offset: spec_optional::<i32>(j, "timezone_offset"@)->0,
                    demo_mode: spec_optional::<bool>(j, "demo_mode"@)->0,
                    mqtt_webhost: spec_optional::<String>(j, "mqtt_webhost"@)->0,
                    mqtt_host: spec_optional::<String>(j, "mqtt_host"@)->0,
                    high_workload: spec_optional::<bool>(j, "high_workload"@)->0,
                    current_alarms: spec_optional::<Vec<String>>(j, "current_alarms"@)->0,
                    num_alarms: spec_optional::<i32>(j, "num_alarms"@)->0,
                    avatar_url: spec_optional::<String>(j, "avatar_url"@)->0,
                    tags: spec_optional::<Vec<Tag>>(j, "tags"@)->0,
                    images: spec_optional::<Vec<Image>>(j, "images"@)->0,
                    view_permissions: spec_optional::<ViewPermissions>(j, "view_permissions"@)->0,
                    extended: spec_extended(j)->0,
                },
            )
        } else {
            None
        }
    }

    fn decode(j: &Json) -> (r: Option<Installation>) {
        if !j.is_object() {
            return None;
        }
        Some(
            Installation {
                site_id: required::<i32>(j, "idSite")?,
                access_level: required::<i32>(j, "accessLevel")?,
                owner: required::<bool>(j, "owner")?,
                is_admin: required::<bool>(j, "is_admin")?,
                name: required::<String>(j, "name")?,
                identifier: required::<String>(j, "identifier")?,
                user_id: required::<i32>(j, "idUser")?,
                pv_max: required::<i32>(j, "pvMax")?,
                timezone: required::<String>(j, "timezone")?,
                phone_number: optional::<String>(j, "phonenumber")?,
                notes: optional::<String>(j, "notes")?,
                geofence: optional::<String>(j, "geofence")?,
                geofence_enabled: required::<bool>(j, "geofenceEnabled")?,
                realtime_updates: required::<bool>(j, "realtimeUpdates")?,
                has_mains: required::<i8>(j, "hasMains")?,
                has_generator: required::<i8>(j, "hasGenerator")?,
                no_data_alarm_timeout: optional::<i32>(j, "noDataAlarmTimeout")?,
                alarm_monitoring: required::<i8>(j, "alarmMonitoring")?,
                invalid_vrm_auth_token_used_in_log_request: required::<i8>(
                    j,
                    "invalidVRMAuthTokenUsedInLogRequest",
                )?,
                sys_created: required::<i64>(j, "syscreated")?,
                shared: required::<bool>(j, "shared")?,
                device_icon: required::<String>(j, "device_icon")?,
                alarm: optional::<bool>(j, "alarm")?,
                last_timestamp: optional::<i64>(j, "last_timestamp")?,
                current_time: optional::<String>(j, "current_time")?,
                timezone_offset: optional::<i32>(j, "timezone_offset")?,
                demo_mode: optional::<bool>(j, "demo_mode")?,
                mqtt_webhost: optional::<String>(j, "mqtt_webhost")?,
                mqtt_host: optional::<String>(j, "mqtt_host")?,
                high_workload: optional::<bool>(j, "high_workload")?,
                current_alarms: optional::<Vec<String>>(j, "current_alarms")?,
                num_alarms: optional::<i32>(j, "num_alarms")?,
                avatar_url: optional::<String>(j, "avatar_url")?,
                tags: optional::<Vec<Tag>>(j, "tags")?,
                images: optional::<Vec<Image>>(j, "images")?,
                view_permissions: optional::<ViewPermissions>(j, "view_permissions")?,
                extended: extended(j)?,
            },
        )
    }
}

/// One entry of an installation's extended telemetry: a [`Data`] reading where
/// the entry carries a `code` member, a [`Summary`] where it carries none.
///
/// Nothing else in an entry tells the two apart.
#[derive(Debug, Clone, PartialEq, Eq)]
pub enum Extended {
    Data(Data),
    Summary(Summary),
}

/// The value of an [`Extended`].
pub enum ExtendedView {
    Data(DataView),
    Summary(SummaryView),
}

impl DeepView for Extended {
    type V = ExtendedView;

    open spec fn deep_view(&self) -> ExtendedView {
        match self {
            Extended::Data(data) => ExtendedView::Data(data.deep_view()),
            Extended::Summary(summary) => ExtendedView::Summary(summary.deep_view()),
        }
    }
}

impl Extended {
    /// Returns true if the extended information is data.
    #[must_use]
    pub fn is_data(&self) -> (r: bool)
        ensures
            r == (self is Data),
    {
        match self {
            Extended::Data(_) => true,
            Extended::Summary(_) => false,
        }
    }

    /// Returns true if the extended information is a summary.
    #[must_use]
    pub fn is_summary(&self) -> (r: bool)
        ensures
            r == (self is Summary),
    {
        match self {
            Extended::Data(_) => false,
            Extended::Summary(_) => true,
        }
    }

    /// Returns the data if it is data.
    #[must_use]
    pub fn as_data(&self) -> (r: Option<&Data>)
        ensures
            match self {
                Extended::Data(data) => r == Some(data),
                Extended::Summary(_) => r is None,
            },
    {
        match self {
            Extended::Data(data) => Some(data),
            Extended::Summary(_) => None,
        }
    }

    /// Returns the summary if it is a summary.
    #[must_use]
    pub fn as_summary(&self) -> (r: Option<&Summary>)
        ensures
            match self {
                Extended::Summary(summary) => r == Some(summary),
                Extended::Data(_) => r is None,
            },
    {
        match self {
            Extended::Summary(summary) => Some(summary),
            Extended::Data(_) => None,
        }
    }
}

impl Decode for Extended {
    open spec fn spec_decode(j: JsonValue) -> Option<ExtendedView> {
        if j.get("code"@) is Some {
            match Data::spec_decode(j) {
                Some(data) => Some(ExtendedView::Data(data)),
                None => None,
            }
        } else {
            match Summary::spec_decode(j) {
                Some(summary) => Some(ExtendedView::Summary(summary)),
                None => None,
            }
        }
    }

    fn decode(j: &Json) -> (r: Option<Extended>) {
        if j.get("code").is_some() {
            match Data::decode(j) {
                Some(data) => Some(Extended::Data(data)),
                None => None,
            }
        } else {
            match Summary::decode(j) {
                Some(summary) => Some(Extended::Summary(summary)),
                None => None,
            }
        }
    }
}

/// An entry is a data reading only where its document has a `code` member,
/// and a summary only where it has none.
pub proof fn lemma_entry_classified_by_code(j: JsonValue)
    ensures
        Extended::spec_decode(j) matches Some(ExtendedView::Data(data)) ==> j.get("code"@) is Some
            && Data::spec_decode(j) == Some(data),
        Extended::spec_decode(j) matches Some(ExtendedView::Summary(summary)) ==> j.get("code"@)
            is None && Summary::spec_decode(j) == Some(summary),
{
}

/// What a document gives as extended telemetry.
///
/// A list gives one entry for each of its items, in the order of the list,
/// and is refused as a whole where any item stands for no entry: the result
/// is `None` then. A document that is no list gives no telemetry, which is
/// `Some(None)`.
pub open spec fn spec_deserialize_data_attribute(value: JsonValue) -> Option<
    Option<Seq<ExtendedView>>,
> {
    match value {
        JsonValue::Array(items) => match spec_decode_all::<Extended>(items) {
            Some(entries) => Some(Some(entries)),
            None => None,
        },
        _ => Some(None),
    }
}

/// Reads extended telemetry from the document under `extended`.
///
/// A list gives `Some(Some(entries))` with one entry for each item, in order,
/// each classified by whether it has a `code` member. A list with an item
/// that cannot be read is an error, `None`: no entry is left out. A document
/// that is no list gives `Some(None)`.
pub fn deserialize_data_attribute(value: &Json) -> (r: Option<Option<Vec<Extended>>>)
    ensures
        r.deep_view() == spec_deserialize_data_attribute(value.deep_view()),
{
    match value {
        Json::Array(_) => match Vec::<Extended>::decode(value) {
            Some(entries) => Some(Some(entries)),
            None => None,
        },
        _ => Some(None),
    }
}

/// In extended telemetry that was read from a list, every item of the list
/// has its entry at its own place: a data reading where the item has a `code`
/// member, a summary where it has none.
pub proof fn lemma_entries_classified_in_place(items: Seq<JsonValue>)
    requires
        spec_deserialize_data_attribute(JsonValue::Array(items)) is Some,
    ensures
        spec_deserialize_data_attribute(JsonValue::Array(items)) matches Some(Some(entries)) && {
            &&& entries.len() == items.len()
            &&& forall|i: int|
                0 <= i < items.len() ==> Extended::spec_decode(#[trigger] items[i]) == Some(
                    entries[i],
                )
            &&& forall|i: int|
                0 <= i < items.len() ==> ((#[trigger] entries[i]) is Data <==> items[i].get(
                    "code"@,
                ) is Some)
            &&& forall|i: int|
                0 <= i < items.len() ==> ((#[trigger] entries[i]) is Summary <==> items[i].get(
                    "code"@,
                ) is None)
        },
{
    let entries = spec_decode_all::<Extended>(items)->0;
    assert forall|i: int| 0 <= i < items.len() implies Extended::spec_decode(
        #[trigger] items[i],
    ) == Some(entries[i]) by {}
    assert forall|i: int| 0 <= i < items.len() implies ((#[trigger] entries[i]) is Data
        <==> items[i].get("code"@) is Some) by {
        assert(Extended::spec_decode(items[i]) == Some(entries[i]));
    }
    assert forall|i: int| 0 <= i < items.len() implies ((#[trigger] entries[i]) is Summary
        <==> items[i].get("code"@) is None) by {
        assert(Extended::spec_decode(items[i]) == Some(entries[i]));
    }
}

/// The extended telemetry of an installation: what the member `extended`
/// gives, and none where the installation has no such member.
pub open spec fn spec_extended(j: JsonValue) -> Option<Option<Seq<ExtendedView>>> {
    match j.get("extended"@) {
        Some(value) => spec_deserialize_data_attribute(value),
        None => Some(None),
    }
}

fn extended(j: &Json) -> (r: Option<Option<Vec<Extended>>>)
    ensures
        r.deep_view() == spec_extended(j.deep_view()),
{
    match j.get("extended") {
        Some(value) => deserialize_data_attribute(value),
        None => Some(None),
    }
}

/// An installation read from a document that leaves out every optional
/// member has none of them.
pub proof fn lemma_installation_without_optional_members(j: JsonValue)
    requires
        Installation::spec_decode(j) is Some,
        j.get("phonenumber"@) is None,
        j.get("notes"@) is None,
        j.get("geofence"@) is None,
        j.get("noDataAlarmTimeout"@) is None,
        j.get("alarm"@) is None,
        j.get("last_timestamp"@) is None,
        j.get("current_time"@) is None,
        j.get("timezone_offset"@) is None,
        j.get("demo_mode"@) is None,
        j.get("mqtt_webhost"@) is None,
        j.get("mqtt_host"@) is None,
        j.get("high_workload"@) is None,
        j.get("current_alarms"@) is None,
        j.get("num_alarms"@) is None,
        j.get("avatar_url"@) is None,
        j.get("tags"@) is None,
        j.get("images"@) is None,
        j.get("view_permissions"@) is None,
        j.get("extended"@) is None,
    ensures
        ({
            let installation = Installation::spec_decode(j)->0;
            &&& installation.phone_number is None
            &&& installation.notes is None
            &&& installation.geofence is None
            &&& installation.no_data_alarm_timeout is None
            &&& installation.alarm is None
            &&& installation.last_timestamp is None
            &&& installation.current_time is None
            &&& installation.timezone_offset is None
            &&& installation.demo_mode is None
            &&& installation.mqtt_webhost is None
            &&& installation.mqtt_host is None
            &&& installation.high_workload is None
            &&& installation.current_alarms is None
            &&& installation.num_alarms is None
            &&& installation.avatar_url is None
            &&& installation.tags is None
            &&& installation.images is None
            &&& installation.view_permissions is None
            &&& installation.extended is None
        }),
{
}

/// A live reading of one attribute.
#[derive(Debug, Clone, PartialEq, Eq)]
pub struct Data {
    pub data_id: i32,
    pub code: String,
    pub description: String,
    pub format_with_unit: String,
    pub data_type: String,
    pub text_value: String,
    pub instance: String,
    pub timestamp: String,
    pub dbus_service_type: String,
    pub dbus_path: String,
    pub raw_value: String,
    pub formatted_value: String,
    /// The named values of the attribute, which the API sends under
    /// `formattedValueWithUnit`.
    pub data_attribute_enum_values: Vec<DataAttributeEnumValue>,
}

/// The value of a [`Data`].
pub struct DataView {
    pub data_id: i32,
    pub code: Seq<char>,
    pub description: Seq<char>,
    pub format_with_unit: Seq<char>,
    pub data_type: Seq<char>,
    pub text_value: Seq<char>,
    pub instance: Seq<char>,
    pub timestamp: Seq<char>,
    pub dbus_service_type: Seq<char>,
    pub dbus_path: Seq<char>,
    pub raw_value: Seq<char>,
    pub formatted_value: Seq<char>,
    pub data_attribute_enum_values: Seq<DataAttributeEnumValueView>,
}

impl DeepView for Data {
    type V = DataView;

    open spec fn deep_view(&self) -> DataView {
        DataView {
            data_id: self.data_id,
            code: self.code@,
            description: self.description@,
            format_with_unit: self.format_with_unit@,
            data_type: self.data_type@,
            text_value: self.text_value@,
            instance: self.instance@,
            timestamp: self.timestamp@,
            dbus_service_type: self.dbus_service_type@,
            dbus_path: self.dbus_path@,
            raw_value: self.raw_value@,
            formatted_value: self.formatted_value@,
            data_attribute_enum_values: self.data_attribute_enum_values.deep_view(),
        }
    }
}

impl Data {
    /// Whether a document is an object in which every member of the record
    /// can be read.
    pub open spec fn spec_complete(j: JsonValue) -> bool {
        &&& j is Object
        &&& spec_required::<i32>(j, "idDataAttribute"@) is Some
        &&& spec_required::<String>(j, "code"@) is Some
        &&& spec_required::<String>(j, "description"@) is Some
        &&& spec_required::<String>(j, "formatWithUnit"@) is Some
        &&& spec_required::<String>(j, "dataType"@) is Some
        &&& spec_required::<String>(j, "textValue"@) is Some
        &&& spec_required::<String>(j, "instance"@) is Some
        &&& spec_required::<String>(j, "timestamp"@) is Some
        &&& spec_required::<String>(j, "dbusServiceType"@) is Some
        &&& spec_required::<String>(j, "dbusPath"@) is Some
        &&& spec_required::<String>(j, "rawValue"@) is Some
        &&& spec_required::<String>(j, "formattedValue"@) is Some
        &&& spec_required::<Vec<DataAttributeEnumValue>>(j, "formattedValueWithUnit"@) is Some
    }
}

impl Decode for Data {
    open spec fn spec_decode(j: JsonValue) -> Option<DataView> {
        if Self::spec_complete(j) {
            Some(
                DataView {
                    data_id: spec_required::<i32>(j, "idDataAttribute"@)->0,
                    code: spec_required::<String>(j, "code"@)->0,
                    description: spec_required::<String>(j, "description"@)->0,
                    format_with_unit: spec_required::<String>(j, "formatWithUnit"@)->0,
                    data_type: spec_required::<String>(j, "dataType"@)->0,
                    text_value: spec_required::<String>(j, "textValue"@)->0,
                    instance: spec_required::<String>(j, "instance"@)->0,
                    timestamp: spec_required::<String>(j, "timestamp"@)->0,
                    dbus_service_type: spec_required::<String>(j, "dbusServiceType"@)->0,
                    dbus_path: spec_required::<String>(j, "dbusPath"@)->0,
                    raw_value: spec_required::<String>(j, "rawValue"@)->0,
                    formatted_value: spec_required::<String>(j, "formattedValue"@)->0,
                    data_attribute_enum_values: spec_required::<Vec<DataAttributeEnumValue>>(
                        j,
                        "formattedValueWithUnit"@,
                    )->0,
                },
            )
        } else {
            None
        }
    }

    fn decode(j: &Json) -> (r: Option<Data>) {
        if !j.is_object() {
            return None;
        }
        Some(
            Data {
                data_id: required::<i32>(j, "idDataAttribute")?,
                code: required::<String>(j, "code")?,
                description: required::<String>(j, "description")?,
                format_with_unit: required::<String>(j, "formatWithUnit")?,
                data_type: required::<String>(j, "dataType")?,
                text_value: required::<String>(j, "textValue")?,
                instance: required::<String>(j, "instance")?,
                timestamp: required::<String>(j, "timestamp")?,
                dbus_service_type: required::<String>(j, "dbusServiceType")?,
                dbus_path: required::<String>(j, "dbusPath")?,
                raw_value: required::<String>(j, "rawValue")?,
                formatted_value: required::<String>(j, "formattedValue")?,
                data_attribute_enum_values: required::<Vec<DataAttributeEnumValue>>(
                    j,
                    "formattedValueWithUnit",
                )?,
            },
        )
    }
}

/// One named value of an enumerated attribute.
#[derive(Debug, Clone, PartialEq, Eq)]
pub struct DataAttributeEnumValue {
    pub name_enum: String,
    pub value_enum: i32,
}

/// The value of a [`DataAttributeEnumValue`].
pub struct DataAttributeEnumValueView {
    pub name_enum: Seq<char>,
    pub value_enum: i32,
}

impl DeepView for DataAttributeEnumValue {
    type V = DataAttributeEnumValueView;

    open spec fn deep_view(&self) -> DataAttributeEnumValueView {
        DataAttributeEnumValueView {
            name_enum: self.name_enum@,
            value_enum: self.value_enum,
        }
    }
}

impl DataAttributeEnumValue {
    /// Whether a document is an object in which every member of the record
    /// can be read.
    pub open spec fn spec_complete(j: JsonValue) -> bool {
        &&& j is Object
        &&& spec_required::<String>(j, "nameEnum"@) is Some
        &&& spec_required::<i32>(j, "valueEnum"@) is Some
    }
}

impl Decode for DataAttributeEnumValue {
    open spec fn spec_decode(j: JsonValue) -> Option<DataAttributeEnumValueView> {
        if Self::spec_complete(j) {
            Some(
                DataAttributeEnumValueView {
                    name_enum: spec_required::<String>(j, "nameEnum"@)->0,
                    value_enum: spec_required::<i32>(j, "valueEnum"@)->0,
                },
            )
        } else {
            None
        }
    }

    fn decode(j: &Json) -> (r: Option<DataAttributeEnumValue>) {
        if !j.is_object() {
            return None;
        }
        Some(
            DataAttributeEnumValue {
                name_enum: required::<String>(j, "nameEnum")?,
                value_enum: required::<i32>(j, "valueEnum")?,
            },
        )
    }
}

/// An aggregated attribute, with the places it is read from.
#[derive(Debug, Clone, PartialEq, Eq)]
pub struct Summary {
    pub data_id: i32,
    /// The code of the attribute, where the document names one. Among the
    /// entries of an installation a summary never does: an entry with a code
    /// is read as [`Data`].
    pub code: Option<String>,
    pub description: String,
    /// The value as the API sends it: any JSON number.
    pub raw_value: Option<Number>,
    pub formatted_value: String,
    pub text_value: Option<String>,
    pub format_with_unit: String,
    pub data_attributes: Vec<DataAttribute>,
}

/// The value of a [`Summary`].
pub struct SummaryView {
    pub data_id: i32,
    pub code: Option<Seq<char>>,
    pub description: Seq<char>,
    pub raw_value: Option<Number>,
    pub formatted_value: Seq<char>,
    pub text_value: Option<Seq<char>>,
    pub format_with_unit: Seq<char>,
    pub data_attributes: Seq<DataAttributeView>,
}

impl DeepView for Summary {
    type V = SummaryView;

    open spec fn deep_view(&self) -> SummaryView {
        SummaryView {
            data_id: self.data_id,
            code: self.code.deep_view(),
            description: self.description@,
            raw_value: self.raw_value,
            formatted_value: self.formatted_value@,
            text_value: self.text_value.deep_view(),
            format_with_unit: self.format_with_unit@,
            data_attributes: self.data_attributes.deep_view(),
        }
    }
}

impl Summary {
    /// Whether a document is an object in which every member of the record
    /// can be read.
    pub open spec fn spec_complete(j: JsonValue) -> bool {
        &&& j is Object
        &&& spec_required::<i32>(j, "idDataAttribute"@) is Some
        &&& spec_optional::<String>(j, "code"@) is Some
        &&& spec_required::<String>(j, "description"@) is Some
        &&& spec_optional::<Number>(j, "rawValue"@) is Some
        &&& spec_required::<String>(j, "formattedValue"@) is Some
        &&& spec_optional::<String>(j, "textValue"@) is Some
        &&& spec_required::<String>(j, "formatWithUnit"@) is Some
        &&& spec_required::<Vec<DataAttribute>>(j, "dataAttributes"@) is Some
    }
}

impl Decode for Summary {
    open spec fn spec_decode(j: JsonValue) -> Option<SummaryView> {
        if Self::spec_complete(j) {
            Some(
                SummaryView {
                    data_id: spec_required::<i32>(j, "idDataAttribute"@)->0,
                    code: spec_optional::<String>(j, "code"@)->0,
                    description: spec_required::<String>(j, "description"@)->0,
                    raw_value: spec_optional::<Number>(j, "rawValue"@)->0,
                    formatted_value: spec_required::<String>(j, "formattedValue"@)->0,
                    text_value: spec_optional::<String>(j, "textValue"@)->0,
                    format_with_unit: spec_required::<String>(j, "formatWithUnit"@)->0,
                    data_attributes: spec_required::<Vec<DataAttribute>>(j, "dataAttributes"@)->0,
                },
            )
        } else {
            None
        }
    }

    fn decode(j: &Json) -> (r: Option<Summary>) {
        if !j.is_object() {
            return None;
        }
        Some(
            Summary {
                data_id: required::<i32>(j, "idDataAttribute")?,
                code: optional::<String>(j, "code")?,
                description: required::<String>(j, "description")?,
                raw_value: optional::<Number>(j, "rawValue")?,
                formatted_value: required::<String>(j, "formattedValue")?,
                text_value: optional::<String>(j, "textValue")?,
                format_with_unit: required::<String>(j, "formatWithUnit")?,
                data_attributes: required::<Vec<DataAttribute>>(j, "dataAttributes")?,
            },
        )
    }
}

/// Where one instance of a summarised attribute is read from.
#[derive(Debug, Clone, PartialEq, Eq)]
pub struct DataAttribute {
    pub instance: i32,
    pub dbus_service_type: String,
    pub dbus_path: String,
}

/// The value of a [`DataAttribute`].
pub struct DataAttributeView {
    pub instance: i32,
    pub dbus_service_type: Seq<char>,
    pub dbus_path: Seq<char>,
}

impl DeepView for DataAttribute {
    type V = DataAttributeView;

    open spec fn deep_view(&self) -> DataAttributeView {
        DataAttributeView {
            instance: self.instance,
            dbus_service_type: self.dbus_service_type@,
            dbus_path: self.dbus_path@,
        }
    }
}

impl DataAttribute {
    /// Whether a document is an object in which every member of the record
    /// can be read.
    pub open spec fn spec_complete(j: JsonValue) -> bool {
        &&& j is Object
        &&& spec_required::<i32>(j, "instance"@) is Some
        &&& spec_required::<String>(j, "dbusServiceType"@) is Some
        &&& spec_required::<String>(j, "dbusPath"@) is Some
    }
}

impl Decode for DataAttribute {
    open spec fn spec_decode(j: JsonValue) -> Option<DataAttributeView> {
        if Self::spec_complete(j) {
            Some(
                DataAttributeView {
                    instance: spec_required::<i32>(j, "instance"@)->0,
                    dbus_service_type: spec_required::<String>(j, "dbusServiceType"@)->0,
                    dbus_path: spec_required::<String>(j, "dbusPath"@)->0,
                },
            )
        } else {
            None
        }
    }

    fn decode(j: &Json) -> (r: Option<DataAttribute>) {
        if !j.is_object() {
            return None;
        }
        Some(
            DataAttribute {
                instance: required::<i32>(j, "instance")?,
                dbus_service_type: required::<String>(j, "dbusServiceType")?,
                dbus_path: required::<String>(j, "dbusPath")?,
            },
        )
    }
}

/// A tag attached to an installation.
#[derive(Debug, Clone, PartialEq, Eq)]
pub struct Tag {
    pub tag_id: i32,
    pub name: String,
    pub automatic: bool,
}

/// The value of a [`Tag`].
pub struct TagView {
    pub tag_id: i32,
    pub name: Seq<char>,
    pub automatic: bool,
}

impl DeepView for Tag {
    type V = TagView;

    open spec fn deep_view(&self) -> TagView {
        TagView {
            tag_id: self.tag_id,
            name: self.name@,
            automatic: self.automatic,
        }
    }
}

impl Tag {
    /// Whether a document is an object in which every member of the record
    /// can be read.
    pub open spec fn spec_complete(j: JsonValue) -> bool {
        &&& j is Object
        &&& spec_required::<i32>(j, "idTag"@) is Some
        &&& spec_required::<String>(j, "name"@) is Some
        &&& spec_required::<bool>(j, "automatic"@) is Some
    }
}

impl Decode for Tag {
    open spec fn spec_decode(j: JsonValue) -> Option<TagView> {
        if Self::spec_complete(j) {
            Some(
                TagView {
                    tag_id: spec_required::<i32>(j, "idTag"@)->0,
                    name: spec_required::<String>(j, "name"@)->0,
                    automatic: spec_required::<bool>(j, "automatic"@)->0,
                },
            )
        } else {
            None
        }
    }

    fn decode(j: &Json) -> (r: Option<Tag>) {
        if !j.is_object() {
            return None;
        }
        Some(
            Tag {
                tag_id: required::<i32>(j, "idTag")?,
                name: required::<String>(j, "name")?,
                automatic: required::<bool>(j, "automatic")?,
            },
        )
    }
}

/// An image attached to an installation.
#[derive(Debug, Clone, PartialEq, Eq)]
pub struct Image {
    pub image_id: i32,
    pub name: String,
    pub url: String,
}

/// The value of an [`Image`].
pub struct ImageView {
    pub image_id: i32,
    pub name: Seq<char>,
    pub url: Seq<char>,
}

impl DeepView for Image {
    type V = ImageView;

    open spec fn deep_view(&self) -> ImageView {
        ImageView {
            image_id: self.image_id,
            name: self.name@,
            url: self.url@,
        }
    }
}

impl Image {
    /// Whether a document is an object in which every member of the record
    /// can be read.
    pub open spec fn spec_complete(j: JsonValue) -> bool {
        &&& j is Object
        &&& spec_required::<i32>(j, "idSiteImage"@) is Some
        &&& spec_required::<String>(j, "imageName"@) is Some
        &&& spec_required::<String>(j, "url"@) is Some
    }
}

impl Decode for Image {
    open spec fn spec_decode(j: JsonValue) -> Option<ImageView> {
        if Self::spec_complete(j) {
            Some(
                ImageView {
                    image_id: spec_required::<i32>(j, "idSiteImage"@)->0,
                    name: spec_required::<String>(j, "imageName"@)->0,
                    url: spec_required::<String>(j, "url"@)->0,
                },
            )
        } else {
            None
        }
    }

    fn decode(j: &Json) -> (r: Option<Image>) {
        if !j.is_object() {
            return None;
        }
        Some(
            Image {
                image_id: required::<i32>(j, "idSiteImage")?,
                name: required::<String>(j, "imageName")?,
                url: required::<String>(j, "url")?,
            },
        )
    }
}

/// Installation view permissions for the requesting user.
#[derive(Debug, Clone, Copy, PartialEq, Eq)]
pub struct ViewPermissions {
    /// True if the requesting user can modify general settings.
    pub update_settings: bool,
    /// True if the requesting user can view general settings.
    pub settings: bool,
    /// True if the requesting user can view diagnostics.
    pub diagnostics: bool,
    /// True if the requesting user can modify site share settings.
    pub share: bool,
    /// True if the requesting user can view VNC.
    pub vnc: bool,
    /// True if the requesting user can view MQTT RPC.
    pub mqtt_rpc: bool,
    /// True if the requesting user can view VNC.
    pub vebus: bool,
    /// True if the installation has two way communication.
    pub twoway: bool,
    /// True if the requesting user can view the exact location.
    pub exact_location: bool,
    /// True if the installation has Node RED.
    pub nodered: bool,
    /// True if the installation has a Node RED Dashboard.
    pub nodered_dash: bool,
    /// True if the installation has SignalK.
    pub signalk: bool,
}

impl DeepView for ViewPermissions {
    type V = ViewPermissions;

    open spec fn deep_view(&self) -> ViewPermissions {
        *self
    }
}

impl ViewPermissions {
    /// Whether a document is an object in which every member of the record
    /// can be read.
    pub open spec fn spec_complete(j: JsonValue) -> bool {
        &&& j is Object
        &&& spec_required::<bool>(j, "update_settings"@) is Some
        &&& spec_required::<bool>(j, "settings"@) is Some
        &&& spec_required::<bool>(j, "diagnostics"@) is Some
        &&& spec_required::<bool>(j, "share"@) is Some
        &&& spec_required::<bool>(j, "vnc"@) is Some
        &&& spec_required::<bool>(j, "mqtt_rpc"@) is Some
        &&& spec_required::<bool>(j, "vebus"@) is Some
        &&& spec_required::<bool>(j, "twoway"@) is Some
        &&& spec_required::<bool>(j, "exact_location"@) is Some
        &&& spec_required::<bool>(j, "nodered"@) is Some
        &&& spec_required::<bool>(j, "nodered_dash"@) is Some
        &&& spec_required::<bool>(j, "signalk"@) is Some
    }
}

impl Decode for ViewPermissions {
    open spec fn spec_decode(j: JsonValue) -> Option<ViewPermissions> {
        if Self::spec_complete(j) {
            Some(
                ViewPermissions {
                    update_settings: spec_required::<bool>(j, "update_settings"@)->0,
                    settings: spec_required::<bool>(j, "settings"@)->0,
                    diagnostics: spec_required::<bool>(j, "diagnostics"@)->0,
                    share: spec_required::<bool>(j, "share"@)->0,
                    vnc: spec_required::<bool>(j, "vnc"@)->0,
                    mqtt_rpc: spec_required::<bool>(j, "mqtt_rpc"@)->0,
                    vebus: spec_required::<bool>(j, "vebus"@)->0,
                    twoway: spec_required::<bool>(j, "twoway"@)->0,
                    exact_location: spec_required::<bool>(j, "exact_location"@)->0,
                    nodered: spec_required::<bool>(j, "nodered"@)->0,
                    nodered_dash: spec_required::<bool>(j, "nodered_dash"@)->0,
                    signalk: spec_required::<bool>(j, "signalk"@)->0,
                },
            )
        } else {
            None
        }
    }

    fn decode(j: &Json) -> (r: Option<ViewPermissions>) {
        if !j.is_object() {
            return None;
        }
        Some(
            ViewPermissions {
                update_settings: required::<bool>(j, "update_settings")?,
                settings: required::<bool>(j, "settings")?,
                diagnostics: required::<bool>(j, "diagnostics")?,
                share: required::<bool>(j, "share")?,
                vnc: required::<bool>(j, "vnc")?,
                mqtt_rpc: required::<bool>(j, "mqtt_rpc")?,
                vebus: required::<bool>(j, "vebus")?,
                twoway: required::<bool>(j, "twoway")?,
                exact_location: required::<bool>(j, "exact_location")?,
                nodered: required::<bool>(j, "nodered")?,
                nodered_dash: required::<bool>(j, "nodered_dash")?,
                signalk: required::<bool>(j, "signalk")?,
            },
        )
    }
}

} // verus!
