//! `system.info`: what the client tells a task about itself and the machine.
use vstd::prelude::*;

use crate::config::AppConfig;
use crate::device::{
    capability_names, default_capabilities, string_array, system_fields, SystemInfo,
    CLIENT_VERSION,
};
use crate::json::{members_view, object, Json, JsonView};

verus! {

#[derive(Debug)]
pub struct SystemCapabilities {
    config: AppConfig,
}

impl SystemCapabilities {
    pub fn new(config: AppConfig) -> (res: SystemCapabilities)
        ensures
            res.config()@ == config@,
    {
        SystemCapabilities { config }
    }

    #[verifier::when_used_as_spec(spec_config)]
    pub fn config(&self) -> (res: &AppConfig)
        ensures
            res == self.spec_config(),
    {
        &self.config
    }

    pub closed spec fn spec_config(&self) -> &AppConfig {
        &self.config
    }

    /// The client version, protocol version, device identifier, the facts
    /// collected about the machine, and the capabilities offered.
    pub fn info(&self, system: &SystemInfo) -> (res: Json)
        ensures
            res@ == JsonView::Object(
                seq![
                    ("client_version"@, JsonView::Str(CLIENT_VERSION@)),
                    ("protocol_version"@, JsonView::Str("1.0"@)),
                    ("device_id"@, JsonView::Str(self.config()@.client.device_id)),
                    ("system"@, JsonView::Object(
                        Seq::new(15, |i: int| (system_fields()[i], system.field_values()[i])),
                    )),
                    ("capabilities"@, JsonView::Array(
                        capability_names().map_values(|r: Seq<char>| JsonView::Str(r)),
                    )),
                ],
            ),
    {
        let sys = system.to_json();
        let caps_list = default_capabilities();
        let caps = string_array(&caps_list);
        let ghost (sv, cv) = (sys@, caps@);
        let mut body: Vec<(String, Json)> = Vec::new();
        body.push((String::from_str("client_version"), Json::string(CLIENT_VERSION)));
        body.push((String::from_str("protocol_version"), Json::string(crate::protocol::PROTOCOL_VERSION)));
        body.push((String::from_str("device_id"), Json::Str(self.config.client.device_id.clone())));
        body.push((String::from_str("system"), sys));
        body.push((String::from_str("capabilities"), caps));
        proof {
            reveal_strlit("1.0");
        }
        assert(members_view(body@) =~= seq![
            ("client_version"@, JsonView::Str(CLIENT_VERSION@)),
            ("protocol_version"@, JsonView::Str("1.0"@)),
            ("device_id"@, JsonView::Str(self.config()@.client.device_id)),
            ("system"@, sv),
            ("capabilities"@, cv),
        ]);
        object(body)
    }
}

} // verus!
