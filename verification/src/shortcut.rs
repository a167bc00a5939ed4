//! The three key combinations the popup can be bound to.

use vstd::prelude::*;

use crate::text::same_text;

verus! {

/// One of the three fixed hotkey combinations, each on the key V.
#[derive(Clone, Copy, Debug, PartialEq, Eq, Structural)]
pub enum ShortcutBinding {
    /// Option (Alt) + V.
    AltV,
    /// Command + Shift + V.
    CommandShiftV,
    /// Control + Option (Alt) + V.
    ControlAltV,
}

/// The modifier keys of a combination.
#[derive(Clone, Copy, Debug, PartialEq, Eq, Structural)]
pub struct Modifiers {
    pub alt: bool,
    pub control: bool,
    pub shift: bool,
    pub command: bool,
}

impl ShortcutBinding {
    /// The name under which the binding is persisted.
    pub open spec fn spec_name(self) -> Seq<char> {
        match self {
            ShortcutBinding::AltV => "Alt+V"@,
            ShortcutBinding::CommandShiftV => "CommandOrControl+Shift+V"@,
            ShortcutBinding::ControlAltV => "Control+Alt+V"@,
        }
    }

    /// The binding that `name` names, if it names one.
    pub open spec fn spec_from_name(name: Seq<char>) -> Option<ShortcutBinding> {
        if name == "Alt+V"@ {
            Some(ShortcutBinding::AltV)
        } else if name == "CommandOrControl+Shift+V"@ {
            Some(ShortcutBinding::CommandShiftV)
        } else if name == "Control+Alt+V"@ {
            Some(ShortcutBinding::ControlAltV)
        } else {
            None
        }
    }

    /// The binding that is registered for `name`: the one it names, and
    /// Option + V for any other text.
    pub open spec fn spec_resolve(name: Seq<char>) -> ShortcutBinding {
        match Self::spec_from_name(name) {
            Some(binding) => binding,
            None => ShortcutBinding::AltV,
        }
    }

    /// The three bindings, in the order in which the menu lists them.
    pub fn all() -> (bindings: [ShortcutBinding; 3])
        ensures
            bindings@ == seq![
                ShortcutBinding::AltV,
                ShortcutBinding::CommandShiftV,
                ShortcutBinding::ControlAltV,
            ],
    {
        [ShortcutBinding::AltV, ShortcutBinding::CommandShiftV, ShortcutBinding::ControlAltV]
    }

    /// The name under which the binding is persisted.
    pub fn name(self) -> (name: &'static str)
        ensures
            name@ == self.spec_name(),
    {
        match self {
            ShortcutBinding::AltV => "Alt+V",
            ShortcutBinding::CommandShiftV => "CommandOrControl+Shift+V",
            ShortcutBinding::ControlAltV => "Control+Alt+V",
        }
    }

    /// The binding that `name` names, if it names one.
    pub fn from_name(name: &str) -> (binding: Option<ShortcutBinding>)
        ensures
            binding == Self::spec_from_name(name@),
    {
        if same_text(name, "Alt+V") {
            Some(ShortcutBinding::AltV)
        } else if same_text(name, "CommandOrControl+Shift+V") {
            Some(ShortcutBinding::CommandShiftV)
        } else if same_text(name, "Control+Alt+V") {
            Some(ShortcutBinding::ControlAltV)
        } else {
            None
        }
    }

    /// The binding to register for `name`: the one it names, and Option + V
    /// for any other text.
    pub fn resolve(name: &str) -> (binding: ShortcutBinding)
        ensures
            binding == Self::spec_resolve(name@),
    {
        match Self::from_name(name) {
            Some(binding) => binding,
            None => ShortcutBinding::AltV,
        }
    }

    /// The modifier keys that are held with V.
    pub fn modifiers(self) -> (keys: Modifiers)
        ensures
            keys == (match self {
                ShortcutBinding::AltV => Modifiers {
                    alt: true,
                    control: false,
                    shift: false,
                    command: false,
                },
                ShortcutBinding::CommandShiftV => Modifiers {
                    alt: false,
                    control: false,
                    shift: true,
                    command: true,
                },
                ShortcutBinding::ControlAltV => Modifiers {
                    alt: true,
                    control: true,
                    shift: false,
                    command: false,
                },
            }),
    {
        match self {
            ShortcutBinding::AltV => Modifiers {
                alt: true,
                control: false,
                shift: false,
                command: false,
            },
            ShortcutBinding::CommandShiftV => Modifiers {
                alt: false,
                control: false,
                shift: true,
                command: true,
            },
            ShortcutBinding::ControlAltV => Modifiers {
                alt: true,
                control: true,
                shift: false,
                command: false,
            },
        }
    }
}

/// A binding is found again under its own name.
pub proof fn lemma_binding_is_found_by_its_name(binding: ShortcutBinding)
    ensures
        ShortcutBinding::spec_from_name(binding.spec_name()) == Some(binding),
        ShortcutBinding::spec_resolve(binding.spec_name()) == binding,
{
    reveal_strlit("Alt+V");
    reveal_strlit("CommandOrControl+Shift+V");
    reveal_strlit("Control+Alt+V");
    assert("Alt+V"@.len() == 5);
    assert("CommandOrControl+Shift+V"@.len() == 24);
    assert("Control+Alt+V"@.len() == 13);
}

} // verus!
