use vstd::prelude::*;

verus! {

/// User preferences kept between runs.
pub struct AppConfig {
    pub baud_rate: Option<u32>,
    /// The last payload in the send box.
    pub send_data: Option<String>,
    pub hex_send: Option<bool>,
    pub hex_display: Option<bool>,
    pub auto_scroll: Option<bool>,
    /// Whether the send box keeps its text after sending.
    pub save_send_msg: Option<bool>,
    pub received_text_color: Option<String>,
    pub send_text_color: Option<String>,
}

pub open spec fn has_text(o: Option<String>, s: Seq<char>) -> bool {
    o is Some && o->Some_0@ == s
}

/// The preferences used when none were saved or they cannot be read.
pub open spec fn is_default_config(c: AppConfig) -> bool {
    &&& c.baud_rate == Some(9600u32)
    &&& has_text(c.send_data, ""@)
    &&& c.hex_send == Some(false)
    &&& c.hex_display == Some(false)
    &&& c.auto_scroll == Some(true)
    &&& c.save_send_msg == Some(false)
    &&& has_text(c.received_text_color, "#000000"@)
    &&& has_text(c.send_text_color, "#FFAA00"@)
}

impl Default for AppConfig {
    fn default() -> (r: Self)
        ensures
            is_default_config(r),
    {
        AppConfig {
            baud_rate: Some(9600),
            send_data: Some("".to_owned()),
            hex_send: Some(false),
            hex_display: Some(false),
            auto_scroll: Some(true),
            save_send_msg: Some(false),
            received_text_color: Some("#000000".to_owned()),
            send_text_color: Some("#FFAA00".to_owned()),
        }
    }
}

/// The preferences that were read, or the defaults when reading failed.
pub fn config_or_default(loaded: Option<AppConfig>) -> (r: AppConfig)
    ensures
        loaded is Some ==> r == loaded->Some_0,
        loaded is None ==> is_default_config(r),
{
    match loaded {
        Some(c) => c,
        None => AppConfig::default(),
    }
}

} // verus!
