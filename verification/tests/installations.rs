use victron_energy_api::decode::Decode;
use victron_energy_api::installations::{
    deserialize_data_attribute, Data, DataAttribute, DataAttributeEnumValue, Extended, Image,
    Installation, Summary, Tag, ViewPermissions,
};
use victron_energy_api::json::{Json, Number};
use victron_energy_api::transport::Response;
use victron_energy_api::{Error, Failure, Victron};

const REQUIRED: &str = r#""idSite":7,"accessLevel":1,"owner":true,"is_admin":false,"name":"Home","identifier":"c0619ab27f32","idUser":42,"pvMax":3000,"timezone":"Europe/Amsterdam","geofenceEnabled":false,"realtimeUpdates":true,"hasMains":1,"hasGenerator":0,"alarmMonitoring":2,"invalidVRMAuthTokenUsedInLogRequest":0,"syscreated":1500000000,"shared":false,"device_icon":"solar""#;

const DATA_ENTRY: &str = r#"{"idDataAttribute":81,"code":"bs","description":"Battery SOC","formatWithUnit":"%.1f %%","dataType":"float","textValue":"","instance":"258","timestamp":"1590656697","dbusServiceType":"battery","dbusPath":"/Soc","rawValue":"73.2","formattedValue":"73.2 %","formattedValueWithUnit":[{"nameEnum":"Off","valueEnum":0},{"nameEnum":"On","valueEnum":1}]}"#;

const SUMMARY_ENTRY: &str = r#"{"idDataAttribute":47,"description":"Voltage","rawValue":12.5,"formattedValue":"12.5 V","textValue":null,"formatWithUnit":"%.1f V","dataAttributes":[{"instance":0,"dbusServiceType":"battery","dbusPath":"/Dc/0/Voltage"}]}"#;

fn document(text: &str) -> Json {
    Json::parse(text.as_bytes()).unwrap()
}

fn installation(extra: &str) -> Option<Installation> {
    Installation::decode(&document(&format!("{{{}{}}}", REQUIRED, extra)))
}

fn bare() -> Installation {
    Installation {
        site_id: 7,
        access_level: 1,
        owner: true,
        is_admin: false,
        name: "Home".to_string(),
        identifier: "c0619ab27f32".to_string(),
        user_id: 42,
        pv_max: 3000,
        timezone: "Europe/Amsterdam".to_string(),
        phone_number: None,
        notes: None,
        geofence: None,
        geofence_enabled: false,
        realtime_updates: true,
        has_mains: 1,
        has_generator: 0,
        no_data_alarm_timeout: None,
        alarm_monitoring: 2,
        invalid_vrm_auth_token_used_in_log_request: 0,
        sys_created: 1500000000,
        shared: false,
        device_icon: "solar".to_string(),
        alarm: None,
        last_timestamp: None,
        current_time: None,
        timezone_offset: None,
        demo_mode: None,
        mqtt_webhost: None,
        mqtt_host: None,
        high_workload: None,
        current_alarms: None,
        num_alarms: None,
        avatar_url: None,
        tags: None,
        images: None,
        view_permissions: None,
        extended: None,
    }
}

fn data() -> Data {
    Data {
        data_id: 81,
        code: "bs".to_string(),
        description: "Battery SOC".to_string(),
        format_with_unit: "%.1f %%".to_string(),
        data_type: "float".to_string(),
        text_value: String::new(),
        instance: "258".to_string(),
        timestamp: "1590656697".to_string(),
        dbus_service_type: "battery".to_string(),
        dbus_path: "/Soc".to_string(),
        raw_value: "73.2".to_string(),
        formatted_value: "73.2 %".to_string(),
        data_attribute_enum_values: vec![
            DataAttributeEnumValue { name_enum: "Off".to_string(), value_enum: 0 },
            DataAttributeEnumValue { name_enum: "On".to_string(), value_enum: 1 },
        ],
    }
}

fn summary() -> Summary {
    Summary {
        data_id: 47,
        code: None,
        description: "Voltage".to_string(),
        raw_value: Some(Number::Float(12.5f64.to_bits())),
        formatted_value: "12.5 V".to_string(),
        text_value: None,
        format_with_unit: "%.1f V".to_string(),
        data_attributes: vec![DataAttribute {
            instance: 0,
            dbus_service_type: "battery".to_string(),
            dbus_path: "/Dc/0/Voltage".to_string(),
        }],
    }
}

#[test]
fn installation_without_optional_members_has_none_of_them() {
    assert_eq!(installation(""), Some(bare()));
}

#[test]
fn installation_reads_null_as_absent() {
    let extra = r#","phonenumber":null,"notes":null,"geofence":null,"noDataAlarmTimeout":null,"alarm":null,"last_timestamp":null,"current_time":null,"timezone_offset":null,"demo_mode":null,"mqtt_webhost":null,"mqtt_host":null,"high_workload":null,"current_alarms":null,"num_alarms":null,"avatar_url":null,"tags":null,"images":null,"view_permissions":null,"extended":null"#;
    assert_eq!(installation(extra), Some(bare()));
}

#[test]
fn installation_reads_every_optional_member() {
    let extra = r#","phonenumber":"+31","notes":"n","geofence":"{}","noDataAlarmTimeout":900,"alarm":true,"last_timestamp":1600000000,"current_time":"12:34","timezone_offset":7200,"demo_mode":false,"mqtt_webhost":"webhost","mqtt_host":"host","high_workload":false,"current_alarms":["a","b"],"num_alarms":2,"avatar_url":"http://a","tags":[{"idTag":1,"name":"t","automatic":true}],"images":[{"idSiteImage":5,"imageName":"i","url":"u"}],"view_permissions":{"update_settings":true,"settings":true,"diagnostics":false,"share":true,"vnc":false,"mqtt_rpc":true,"vebus":false,"twoway":true,"exact_location":false,"nodered":true,"nodered_dash":false,"signalk":true},"extended":[]"#;
    let expected = Installation {
        phone_number: Some("+31".to_string()),
        notes: Some("n".to_string()),
        geofence: Some("{}".to_string()),
        no_data_alarm_timeout: Some(900),
        alarm: Some(true),
        last_timestamp: Some(1600000000),
        current_time: Some("12:34".to_string()),
        timezone_offset: Some(7200),
        demo_mode: Some(false),
        mqtt_webhost: Some("webhost".to_string()),
        mqtt_host: Some("host".to_string()),
        high_workload: Some(false),
        current_alarms: Some(vec!["a".to_string(), "b".to_string()]),
        num_alarms: Some(2),
        avatar_url: Some("http://a".to_string()),
        tags: Some(vec![Tag { tag_id: 1, name: "t".to_string(), automatic: true }]),
        images: Some(vec![Image { image_id: 5, name: "i".to_string(), url: "u".to_string() }]),
        view_permissions: Some(ViewPermissions {
            update_settings: true,
            settings: true,
            diagnostics: false,
            share: true,
            vnc: false,
            mqtt_rpc: true,
            vebus: false,
            twoway: true,
            exact_location: false,
            nodered: true,
            nodered_dash: false,
            signalk: true,
        }),
        extended: Some(vec![]),
        ..bare()
    };
    assert_eq!(installation(extra), Some(expected));
}

#[test]
fn installation_wants_every_required_member() {
    for key in [
        "idSite", "accessLevel", "owner", "is_admin", "name", "identifier", "idUser", "pvMax",
        "timezone", "geofenceEnabled", "realtimeUpdates", "hasMains", "hasGenerator",
        "alarmMonitoring", "invalidVRMAuthTokenUsedInLogRequest", "syscreated", "shared",
        "device_icon",
    ] {
        let renamed = REQUIRED.replace(&format!("\"{}\"", key), "\"other\"");
        assert_eq!(
            Installation::decode(&document(&format!("{{{}}}", renamed))),
            None
        );
    }
}

#[test]
fn installation_is_read_from_objects_only() {
    assert_eq!(Installation::decode(&Json::Null), None);
    assert_eq!(Installation::decode(&Json::Array(vec![])), None);
    assert_eq!(Installation::decode(&Json::Object(vec![])), None);
}

#[test]
fn installation_wants_members_of_the_right_type() {
    assert_eq!(installation(r#","notes":5"#), None);
    assert_eq!(installation(r#","alarm":"yes""#), None);
    assert_eq!(installation(r#","num_alarms":"2""#), None);
    assert_eq!(installation(r#","current_alarms":["a",1]"#), None);
    assert_eq!(installation(r#","tags":[{"idTag":1,"name":"t"}]"#), None);
    assert_eq!(installation(r#","view_permissions":{"settings":true}"#), None);
}

#[test]
fn installation_integers_must_fit_their_width() {
    let small = REQUIRED.replace("\"hasMains\":1", "\"hasMains\":127");
    assert_eq!(
        Installation::decode(&document(&format!("{{{}}}", small))).map(|i| i.has_mains),
        Some(127)
    );
    let low = REQUIRED.replace("\"hasMains\":1", "\"hasMains\":-128");
    assert_eq!(
        Installation::decode(&document(&format!("{{{}}}", low))).map(|i| i.has_mains),
        Some(-128)
    );
    let wide = REQUIRED.replace("\"hasMains\":1", "\"hasMains\":128");
    assert_eq!(Installation::decode(&document(&format!("{{{}}}", wide))), None);
    let under = REQUIRED.replace("\"hasMains\":1", "\"hasMains\":-129");
    assert_eq!(Installation::decode(&document(&format!("{{{}}}", under))), None);
    let float = REQUIRED.replace("\"pvMax\":3000", "\"pvMax\":3000.0");
    assert_eq!(Installation::decode(&document(&format!("{{{}}}", float))), None);
    let long = REQUIRED.replace("\"syscreated\":1500000000", "\"syscreated\":9223372036854775807");
    assert_eq!(
        Installation::decode(&document(&format!("{{{}}}", long))).map(|i| i.sys_created),
        Some(i64::MAX)
    );
    let longer = REQUIRED.replace("\"syscreated\":1500000000", "\"syscreated\":9223372036854775808");
    assert_eq!(Installation::decode(&document(&format!("{{{}}}", longer))), None);
}

#[test]
fn extended_entries_are_classified_by_code() {
    let extra = format!(r#","extended":[{},{}]"#, DATA_ENTRY, SUMMARY_ENTRY);
    let read = installation(&extra).unwrap();
    let entries = read.extended.unwrap();
    assert_eq!(entries.len(), 2);
    assert!(entries[0].is_data());
    assert!(!entries[0].is_summary());
    assert!(entries[1].is_summary());
    assert!(!entries[1].is_data());
    assert_eq!(entries[0], Extended::Data(data()));
    assert_eq!(entries[1], Extended::Summary(summary()));
}

#[test]
fn extended_entry_with_code_is_never_a_summary() {
    let with_code = SUMMARY_ENTRY.replacen('{', r#"{"code":"V","#, 1);
    assert_eq!(Extended::decode(&document(&with_code)), None);
    assert_eq!(
        Summary::decode(&document(&with_code)),
        Some(Summary { code: Some("V".to_string()), ..summary() })
    );
    let null_code = SUMMARY_ENTRY.replacen('{', r#"{"code":null,"#, 1);
    assert_eq!(Extended::decode(&document(&null_code)), None);
}

#[test]
fn extended_entry_without_code_is_never_data() {
    let without = DATA_ENTRY.replace(r#""code":"bs","#, "");
    assert_eq!(Data::decode(&document(&without)), None);
    assert_eq!(Extended::decode(&document(&without)), None);
}

#[test]
fn extended_gives_one_entry_for_each_item() {
    let list = format!("[{},{},{}]", SUMMARY_ENTRY, DATA_ENTRY, DATA_ENTRY);
    assert_eq!(
        deserialize_data_attribute(&document(&list)),
        Some(Some(vec![
            Extended::Summary(summary()),
            Extended::Data(data()),
            Extended::Data(data()),
        ]))
    );
}

#[test]
fn extended_refuses_a_list_with_an_unreadable_item() {
    assert_eq!(deserialize_data_attribute(&document("[null]")), None);
    assert_eq!(deserialize_data_attribute(&document("[5]")), None);
    assert_eq!(deserialize_data_attribute(&document("[{}]")), None);
    assert_eq!(deserialize_data_attribute(&document(r#"[{"code":"x"}]"#)), None);
    for unreadable in ["null", "5", "{}", "\"text\"", r#"{"code":"x"}"#] {
        let first = format!("[{},{},{}]", unreadable, SUMMARY_ENTRY, DATA_ENTRY);
        assert_eq!(deserialize_data_attribute(&document(&first)), None);
        let middle = format!("[{},{},{}]", SUMMARY_ENTRY, unreadable, DATA_ENTRY);
        assert_eq!(deserialize_data_attribute(&document(&middle)), None);
        let last = format!("[{},{},{}]", SUMMARY_ENTRY, DATA_ENTRY, unreadable);
        assert_eq!(deserialize_data_attribute(&document(&last)), None);
    }
}

#[test]
fn installation_with_an_unreadable_entry_is_refused() {
    assert_eq!(installation(r#","extended":[null]"#), None);
    let extra = format!(r#","extended":[{},{{"code":"x"}}]"#, DATA_ENTRY);
    assert_eq!(installation(&extra), None);
    let body = format!(
        r#"{{"success":true,"records":[{{{}{}}}]}}"#,
        REQUIRED, extra
    );
    let malformed = Err(Error::Victron(Failure {
        success: false,
        errors: Json::String("Malformed response".to_string()),
        error_code: Some("malformed_response".to_string()),
    }));
    assert_eq!(
        Victron::get_installation_or_site(&Response::new(200, body.as_bytes())),
        malformed
    );
    assert!(matches!(
        Victron::get_all_installations_or_sites(&Response::new(200, body.as_bytes())),
        Err(Error::Victron(_))
    ));
}

#[test]
fn extended_of_an_empty_list_is_empty() {
    assert_eq!(deserialize_data_attribute(&document("[]")), Some(Some(vec![])));
    assert_eq!(
        installation(r#","extended":[]"#).map(|i| i.extended),
        Some(Some(vec![]))
    );
}

#[test]
fn extended_of_what_is_no_list_is_absent() {
    assert_eq!(deserialize_data_attribute(&Json::Null), Some(None));
    assert_eq!(deserialize_data_attribute(&document("{}")), Some(None));
    assert_eq!(deserialize_data_attribute(&document("\"x\"")), Some(None));
    assert_eq!(deserialize_data_attribute(&document("3")), Some(None));
    assert_eq!(installation(r#","extended":{"code":"x"}"#).map(|i| i.extended), Some(None));
    assert_eq!(installation(r#","extended":false"#).map(|i| i.extended), Some(None));
}

#[test]
fn extended_accessors_pick_the_variant() {
    let d = Extended::Data(data());
    let s = Extended::Summary(summary());
    assert!(d.is_data());
    assert!(!d.is_summary());
    assert!(s.is_summary());
    assert!(!s.is_data());
    assert_eq!(d.as_data(), Some(&data()));
    assert_eq!(d.as_summary(), None);
    assert_eq!(s.as_summary(), Some(&summary()));
    assert_eq!(s.as_data(), None);
}

#[test]
fn summary_raw_value_is_any_number() {
    let whole = SUMMARY_ENTRY.replace("\"rawValue\":12.5", "\"rawValue\":12");
    assert_eq!(
        Summary::decode(&document(&whole)).map(|s| s.raw_value),
        Some(Some(Number::PosInt(12)))
    );
    let negative = SUMMARY_ENTRY.replace("\"rawValue\":12.5", "\"rawValue\":-3");
    assert_eq!(
        Summary::decode(&document(&negative)).map(|s| s.raw_value),
        Some(Some(Number::NegInt(-3)))
    );
    let absent = SUMMARY_ENTRY.replace("\"rawValue\":12.5,", "");
    assert_eq!(
        Summary::decode(&document(&absent)).map(|s| s.raw_value),
        Some(None)
    );
    let text = SUMMARY_ENTRY.replace("\"rawValue\":12.5", "\"rawValue\":\"12.5\"");
    assert_eq!(Summary::decode(&document(&text)), None);
}

#[test]
fn data_reads_its_enum_values_from_the_wire_name() {
    let read = Data::decode(&document(DATA_ENTRY)).unwrap();
    assert_eq!(read, data());
    let renamed = DATA_ENTRY.replace("formattedValueWithUnit", "dataAttributeEnumValues");
    assert_eq!(Data::decode(&document(&renamed)), None);
}

#[test]
fn small_records_decode() {
    assert_eq!(
        Tag::decode(&document(r#"{"idTag":3,"name":"roof","automatic":false}"#)),
        Some(Tag { tag_id: 3, name: "roof".to_string(), automatic: false })
    );
    assert_eq!(
        Image::decode(&document(r#"{"idSiteImage":4,"imageName":"a.png","url":"http://x/a.png"}"#)),
        Some(Image { image_id: 4, name: "a.png".to_string(), url: "http://x/a.png".to_string() })
    );
    assert_eq!(
        DataAttribute::decode(&document(r#"{"instance":2,"dbusServiceType":"s","dbusPath":"/p"}"#)),
        Some(DataAttribute { instance: 2, dbus_service_type: "s".to_string(), dbus_path: "/p".to_string() })
    );
    assert_eq!(
        DataAttributeEnumValue::decode(&document(r#"{"nameEnum":"On","valueEnum":1}"#)),
        Some(DataAttributeEnumValue { name_enum: "On".to_string(), value_enum: 1 })
    );
    assert_eq!(Tag::decode(&document(r#"{"idTag":"3","name":"roof","automatic":false}"#)), None);
    assert_eq!(Image::decode(&document(r#"{"idSiteImage":4,"name":"a.png","url":"u"}"#)), None);
}
