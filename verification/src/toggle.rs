//! A two-state switch and its textual proxy.

use vstd::prelude::*;

use crate::text::str_chars;

verus! {

/// A switch: on or off.
#[derive(Clone, Copy, Debug, PartialEq, Eq, Structural)]
pub enum Toggle {
    /// Switched on.
    On,
    /// Switched off.
    Off,
}

/// The textual form a switch is configured with.
#[derive(Clone, Debug, PartialEq, Eq)]
pub struct ToggleProxy {
    /// The raw text, `on` or `off`.
    pub raw: String,
}

impl Toggle {
    /// Read a switch from its textual proxy: exactly `on` or `off`.
    pub fn from_proxy(proxy: &ToggleProxy) -> (r: Result<Toggle, String>)
        ensures
            proxy.raw@ == "on"@ ==> r == Ok::<_, String>(Toggle::On),
            proxy.raw@ == "off"@ ==> r == Ok::<_, String>(Toggle::Off),
            proxy.raw@ != "on"@ && proxy.raw@ != "off"@ ==> (r matches Err(m) && m@
                == "invalid value"@),
    {
        let v = str_chars(proxy.raw.as_str());
        proof {
            reveal_strlit("on");
            reveal_strlit("off");
        }
        if v.len() == 2 && v[0] == 'o' && v[1] == 'n' {
            assert(proxy.raw@ =~= "on"@);
            Ok(Toggle::On)
        } else if v.len() == 3 && v[0] == 'o' && v[1] == 'f' && v[2] == 'f' {
            assert(proxy.raw@ =~= "off"@);
            Ok(Toggle::Off)
        } else {
            proof {
                if proxy.raw@ == "on"@ {
                    assert(v@[0] == 'o' && v@[1] == 'n');
                }
                if proxy.raw@ == "off"@ {
                    assert(v@[0] == 'o' && v@[1] == 'f' && v@[2] == 'f');
                }
            }
            let mut m = String::new();
            m.append("invalid value");
            Err(m)
        }
    }

    /// The switch as its textual proxy, `on` or `off`.
    pub fn to_proxy(&self) -> (r: ToggleProxy)
        ensures
            *self is On ==> r.raw@ == "on"@,
            *self is Off ==> r.raw@ == "off"@,
    {
        let mut raw = String::new();
        match self {
            Toggle::On => raw.append("on"),
            Toggle::Off => raw.append("off"),
        }
        ToggleProxy { raw }
    }
}

} // verus!
