//! Choosing the audio capture backend by name.
use crate::util::{ascii_lowercase, str_eq, str_to_lowercase, to_lowercase};
use vstd::prelude::*;

verus! {

/// The audio capture backends a configuration can name.
#[derive(Debug, Clone, Copy, PartialEq, Eq, Structural)]
pub enum BackendKind {
    PipeWire,
    Alsa,
    Fifo,
    /// Try the device backends in turn.
    Auto,
}

/// The name of a backend, in lowercase.
pub open spec fn backend_name(k: BackendKind) -> Seq<char> {
    match k {
        BackendKind::PipeWire => seq!['p', 'i', 'p', 'e', 'w', 'i', 'r', 'e'],
        BackendKind::Alsa => seq!['a', 'l', 's', 'a'],
        BackendKind::Fifo => seq!['f', 'i', 'f', 'o'],
        BackendKind::Auto => seq!['a', 'u', 't', 'o'],
    }
}

/// The backend whose lowercase name is exactly `s`, if any.
pub open spec fn backend_named(s: Seq<char>) -> Option<BackendKind> {
    if s == backend_name(BackendKind::PipeWire) {
        Some(BackendKind::PipeWire)
    } else if s == backend_name(BackendKind::Alsa) {
        Some(BackendKind::Alsa)
    } else if s == backend_name(BackendKind::Fifo) {
        Some(BackendKind::Fifo)
    } else if s == backend_name(BackendKind::Auto) {
        Some(BackendKind::Auto)
    } else {
        None
    }
}

impl BackendKind {
    /// The name of the backend.
    pub fn name(self) -> (s: &'static str)
        ensures
            s@ == backend_name(self),
    {
        match self {
            BackendKind::PipeWire => {
                proof {
                    reveal_strlit("pipewire");
                }
                "pipewire"
            },
            BackendKind::Alsa => {
                proof {
                    reveal_strlit("alsa");
                }
                "alsa"
            },
            BackendKind::Fifo => {
                proof {
                    reveal_strlit("fifo");
                }
                "fifo"
            },
            BackendKind::Auto => {
                proof {
                    reveal_strlit("auto");
                }
                "auto"
            },
        }
    }

    /// The backend named by `s`, in any letter case (compared after
    /// `str::to_lowercase`), or `None`.
    pub fn from_name(s: &str) -> (k: Option<BackendKind>)
        ensures
            k == backend_named(str_to_lowercase(s@)),
            s.is_ascii() ==> k == backend_named(ascii_lowercase(s@)),
    {
        let lower = to_lowercase(s);
        let l = lower.as_str();
        if str_eq(l, BackendKind::PipeWire.name()) {
            Some(BackendKind::PipeWire)
        } else if str_eq(l, BackendKind::Alsa.name()) {
            Some(BackendKind::Alsa)
        } else if str_eq(l, BackendKind::Fifo.name()) {
            Some(BackendKind::Fifo)
        } else if str_eq(l, BackendKind::Auto.name()) {
            Some(BackendKind::Auto)
        } else {
            None
        }
    }
}

} // verus!
