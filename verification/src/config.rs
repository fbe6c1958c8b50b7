use vstd::prelude::*;

verus! {

broadcast use vstd::string::group_string_axioms;

/// Process configuration: whether to run in debug mode, and the address the
/// surrounding server binds on. Reading the environment is the caller's
/// concern; this module owns the defaulting rules applied to whatever the
/// environment did or did not provide.
#[derive(Clone, Debug)]
pub struct Config {
    pub debug: bool,
    pub address: String,
}

/// The default values used when the environment leaves a configuration field
/// unset.
pub struct ConfigFn {}

impl ConfigFn {
    /// The default for fields that are off unless set.
    pub fn fn_false() -> (value: bool)
        ensures
            value == false,
    {
        false
    }

    /// The default for fields that are on unless set; debug mode defaults on.
    pub fn fn_true() -> (value: bool)
        ensures
            value == true,
    {
        true
    }

    /// The default bind address.
    pub fn fn_default_address() -> (address: String)
        ensures
            address@ == "0.0.0.0:3000"@,
    {
        "0.0.0.0:3000".to_string()
    }

    /// The default for string fields that are empty unless set.
    pub fn fn_empty_string() -> (value: String)
        ensures
            value@ == Seq::<char>::empty(),
    {
        String::new()
    }
}

impl Config {
    /// Build a configuration from the optional values the environment
    /// provided, filling every absent field with its default: debug mode on,
    /// bind address `0.0.0.0:3000`.
    pub fn new(debug: Option<bool>, address: Option<String>) -> (config: Config)
        ensures
            config.debug == (match debug {
                Some(value) => value,
                None => true,
            }),
            config.address@ == (match address {
                Some(value) => value@,
                None => "0.0.0.0:3000"@,
            }),
    {
        let debug = match debug {
            Some(value) => value,
            None => ConfigFn::fn_true(),
        };
        let address = match address {
            Some(value) => value,
            None => ConfigFn::fn_default_address(),
        };
        Config { debug, address }
    }
}

} // verus!
