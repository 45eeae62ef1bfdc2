use handy::settings::CoreSettings;
use serde::ser::SerializeStruct;

/// The JSON form of `CoreSettings`: an object of its (no) fields.
struct Wire<'a>(&'a CoreSettings);

impl serde::Serialize for Wire<'_> {
    fn serialize<S: serde::Serializer>(&self, serializer: S) -> Result<S::Ok, S::Error> {
        let _ = self.0;
        serializer.serialize_struct("CoreSettings", 0)?.end()
    }
}

/// Reads `CoreSettings` from JSON: any object, with every absent field at
/// its default.
fn from_json(json: &str) -> Result<CoreSettings, serde_json::Error> {
    let _fields: serde_json::Map<String, serde_json::Value> = serde_json::from_str(json)?;
    Ok(CoreSettings::defaults())
}

#[test]
fn default_round_trips_through_json() {
    let s = CoreSettings::defaults();
    let json = serde_json::to_string(&Wire(&s)).expect("serialize");
    let back: CoreSettings = from_json(&json).expect("deserialize");
    // No fields yet: both serialize to "{}".
    assert_eq!(json, "{}");
    let _ = back;
}
