//! What the user interface shows and selects.

use vstd::prelude::*;
use crate::ports::{discover_ports, names_of, same_names, strictly_ascending};
use crate::text::{joined, option_text};

verus! {

/// The selection, the status line, the progress and the known ports.
pub struct FlasherState {
    package: Option<String>,
    port: Option<String>,
    status: String,
    progress: u8,
    ports: Vec<String>,
}

impl FlasherState {
    #[verifier::type_invariant]
    spec fn well_formed(self) -> bool {
        self.progress <= 100 && strictly_ascending(names_of(self.ports@))
    }

    /// The path of the selected firmware package.
    pub closed spec fn package_path(self) -> Option<Seq<char>> {
        option_text(self.package)
    }

    /// The name of the selected port.
    pub closed spec fn port_name(self) -> Option<Seq<char>> {
        option_text(self.port)
    }

    /// The status line.
    pub closed spec fn status_text(self) -> Seq<char> {
        self.status@
    }

    /// The progress of the running attempt, in percent.
    pub closed spec fn progress_percent(self) -> nat {
        self.progress as nat
    }

    /// The names of the known ports.
    pub closed spec fn known_ports(self) -> Seq<Seq<char>> {
        names_of(self.ports@)
    }

    /// The state at startup: nothing selected, nothing to report, no progress
    /// and no port known yet.
    pub fn new() -> (state: FlasherState)
        ensures
            state.package_path() is None,
            state.port_name() is None,
            state.status_text() == Seq::<char>::empty(),
            state.progress_percent() == 0,
            state.known_ports() == Seq::<Seq<char>>::empty(),
    {
        let state = FlasherState { package: None, port: None, status: String::new(), progress: 0, ports: Vec::new() };
        proof {
            assert(names_of(state.ports@) =~= Seq::<Seq<char>>::empty());
        }
        state
    }

    /// Selects the firmware package at `path`, in place of any other.
    pub fn select_package(&mut self, path: String)
        ensures
            final(self).package_path() == Some(path@),
            final(self).port_name() == old(self).port_name(),
            final(self).status_text() == old(self).status_text(),
            final(self).progress_percent() == old(self).progress_percent(),
            final(self).known_ports() == old(self).known_ports(),
    {
        proof {
            use_type_invariant(&*self);
        }
        self.package = Some(path);
    }

    /// Selects the port `name`, in place of any other.
    pub fn select_port(&mut self, name: String)
        ensures
            final(self).port_name() == Some(name@),
            final(self).package_path() == old(self).package_path(),
            final(self).status_text() == old(self).status_text(),
            final(self).progress_percent() == old(self).progress_percent(),
            final(self).known_ports() == old(self).known_ports(),
    {
        proof {
            use_type_invariant(&*self);
        }
        self.port = Some(name);
    }

    /// Takes in the names that the host reported: the known ports become
    /// every reported name once, in ascending order. The selection and the
    /// status line stay.
    pub fn ports_detected(&mut self, reported: Vec<String>)
        ensures
            strictly_ascending(final(self).known_ports()),
            same_names(final(self).known_ports(), names_of(reported@)),
            final(self).package_path() == old(self).package_path(),
            final(self).port_name() == old(self).port_name(),
            final(self).status_text() == old(self).status_text(),
            final(self).progress_percent() == old(self).progress_percent(),
    {
        proof {
            use_type_invariant(&*self);
        }
        self.ports = discover_ports(reported);
    }

    /// Reports that the host could not list its ports: the status line says
    /// so, the known ports stay as they were.
    pub fn detection_failed(&mut self, reason: &str)
        ensures
            final(self).status_text() == "Error detecting ports: "@ + reason@,
            final(self).known_ports() == old(self).known_ports(),
            final(self).package_path() == old(self).package_path(),
            final(self).port_name() == old(self).port_name(),
            final(self).progress_percent() == old(self).progress_percent(),
    {
        proof {
            use_type_invariant(&*self);
        }
        self.status = joined("Error detecting ports: ", reason);
    }

    /// Replaces the status line.
    pub fn set_status(&mut self, status: String)
        ensures
            final(self).status_text() == status@,
            final(self).known_ports() == old(self).known_ports(),
            final(self).package_path() == old(self).package_path(),
            final(self).port_name() == old(self).port_name(),
            final(self).progress_percent() == old(self).progress_percent(),
    {
        proof {
            use_type_invariant(&*self);
        }
        self.status = status;
    }

    /// The path of the selected firmware package.
    pub fn package(&self) -> (r: Option<&String>)
        ensures
            match r {
                Some(path) => self.package_path() == Some(path@),
                None => self.package_path() is None,
            },
    {
        self.package.as_ref()
    }

    /// The name of the selected port.
    pub fn port(&self) -> (r: Option<&String>)
        ensures
            match r {
                Some(name) => self.port_name() == Some(name@),
                None => self.port_name() is None,
            },
    {
        self.port.as_ref()
    }

    /// The status line.
    pub fn status(&self) -> (r: &String)
        ensures
            r@ == self.status_text(),
    {
        &self.status
    }

    /// The progress of the running attempt, in percent: at most 100.
    pub fn progress(&self) -> (r: u8)
        ensures
            r == self.progress_percent(),
            r <= 100,
    {
        proof {
            use_type_invariant(self);
        }
        self.progress
    }

    /// The known ports: distinct names in ascending order.
    pub fn ports(&self) -> (r: &Vec<String>)
        ensures
            names_of(r@) == self.known_ports(),
            strictly_ascending(names_of(r@)),
    {
        proof {
            use_type_invariant(self);
        }
        &self.ports
    }
}

} // verus!
