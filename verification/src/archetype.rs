//! The archetype selector: the closed set of six project recipes and the
//! translation of a menu choice into one of them.

use vstd::prelude::*;

verus! {

/// One of the six fixed project recipes: plain script or component-based,
/// each optionally with a compiled native module, each optionally with a
/// background worker.
#[derive(Clone, Copy, PartialEq, Eq, Structural, Debug)]
pub enum Archetype {
    VanillaJs,
    VanillaJsWasm,
    VanillaJsWasmWorker,
    React,
    ReactWasm,
    ReactWasmWorker,
}

impl Archetype {
    /// Whether the recipe builds on the component framework.
    pub open spec fn is_component(self) -> bool {
        match self {
            Archetype::React | Archetype::ReactWasm | Archetype::ReactWasmWorker => true,
            _ => false,
        }
    }

    /// Whether the recipe compiles a native module.
    pub open spec fn has_native_module(self) -> bool {
        match self {
            Archetype::VanillaJs | Archetype::React => false,
            _ => true,
        }
    }

    /// Whether the recipe generates a background worker script.
    pub open spec fn has_worker(self) -> bool {
        match self {
            Archetype::VanillaJsWasmWorker | Archetype::ReactWasmWorker => true,
            _ => false,
        }
    }
}

/// The archetype a trimmed menu answer selects: the digits 1 through 6, in
/// the order of the menu; anything else selects nothing and the caller asks
/// again.
pub open spec fn choice_of(s: Seq<char>) -> Option<Archetype> {
    if s.len() == 1 {
        if s[0] == '1' {
            Some(Archetype::VanillaJs)
        } else if s[0] == '2' {
            Some(Archetype::VanillaJsWasm)
        } else if s[0] == '3' {
            Some(Archetype::VanillaJsWasmWorker)
        } else if s[0] == '4' {
            Some(Archetype::React)
        } else if s[0] == '5' {
            Some(Archetype::ReactWasm)
        } else if s[0] == '6' {
            Some(Archetype::ReactWasmWorker)
        } else {
            None
        }
    } else {
        None
    }
}

/// Resolves a trimmed menu answer to an archetype, or to nothing when the
/// answer is outside the recognized set.
pub fn parse_choice(input: &str) -> (r: Option<Archetype>)
    ensures
        r == choice_of(input@),
{
    if input.unicode_len() != 1 {
        return None;
    }
    let c = input.get_char(0);
    match c {
        '1' => Some(Archetype::VanillaJs),
        '2' => Some(Archetype::VanillaJsWasm),
        '3' => Some(Archetype::VanillaJsWasmWorker),
        '4' => Some(Archetype::React),
        '5' => Some(Archetype::ReactWasm),
        '6' => Some(Archetype::ReactWasmWorker),
        _ => None,
    }
}

/// Whether a trimmed line of input is accepted as a project name: it only
/// has to be non-empty.
pub open spec fn acceptable_name(s: Seq<char>) -> bool {
    s.len() > 0
}

/// Decides whether a trimmed line of input is accepted as a project name;
/// the caller re-prompts until this holds.
pub fn accept_name(line: &str) -> (r: bool)
    ensures
        r == acceptable_name(line@),
{
    line.unicode_len() > 0
}

} // verus!
