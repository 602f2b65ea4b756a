//! Host objects that the generated `main` defines before the translated
//! statements run.

use vstd::prelude::*;

pub mod io;
pub mod json;
pub mod symbol;
pub mod wasi;

verus! {

/// A host object injected into the generated `main`.
pub struct Global {
    /// The identifier that scripts use for the object.
    pub name: String,
    /// Runtime headers that must be included for the factory to be declared.
    pub additional_headers: Option<Vec<String>>,
    /// A statement emitted before any global is defined.
    pub init: Option<String>,
    /// The expression whose value the object starts with.
    pub factory: String,
}

/// What a [`Global`] holds, as mathematical text.
pub struct GlobalView {
    pub name: Seq<char>,
    pub headers: Seq<Seq<char>>,
    pub init: Option<Seq<char>>,
    pub factory: Seq<char>,
}

impl View for Global {
    type V = GlobalView;

    open spec fn view(&self) -> GlobalView {
        GlobalView {
            name: self.name@,
            headers: match self.additional_headers {
                Some(list) => list.deep_view(),
                None => Seq::empty(),
            },
            init: match self.init {
                Some(text) => Some(text@),
                None => None,
            },
            factory: self.factory@,
        }
    }
}

impl DeepView for Global {
    type V = GlobalView;

    open spec fn deep_view(&self) -> GlobalView {
        self@
    }
}

/// A global that needs one header and no initialisation.
pub open spec fn simple_global(name: Seq<char>, header: Seq<char>, factory: Seq<char>) -> GlobalView {
    GlobalView { name, headers: seq![header], init: None, factory }
}

/// Makes a global that needs one header and no initialisation.
fn with_header(name: &str, header: &str, factory: &str) -> (global: Global)
    ensures
        global@ == simple_global(name@, header@, factory@),
        global.additional_headers is Some,
        global.init is None,
{
    let headers: Vec<String> = vec![String::from_str(header)];
    let global = Global {
        name: String::from_str(name),
        additional_headers: Some(headers),
        init: None,
        factory: String::from_str(factory),
    };
    assert(global@.headers =~= seq![header@]);
    global
}

} // verus!
