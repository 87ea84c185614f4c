//! Hierarchical bloom-filter identifiers.

use crate::error::Error;
use crate::identity::{spec_requester_index, PublicIdentity};
use crate::index::{index_of, spec_index_of};
use vstd::prelude::*;

verus! {

/// Hierarchical bloom-filter identifier: the address of one unit of work.
///
/// Every label and identity is present only as its filter index, so two
/// labels that reduce to the same index cannot be told apart.
#[derive(Clone, Copy, Debug, PartialEq, Eq, Structural)]
pub struct HBFI {
    pub responder_index: u64,
    pub requester_index: Option<u64>,
    pub app: u64,
    pub module: u64,
    pub function: u64,
    pub argument: u64,
    pub offset: u64,
    pub window: u64,
}

impl HBFI {
    /// The identifier that [`HBFI::new`] builds, and the failure where it
    /// builds none. The identities are reduced first, then the labels; the
    /// first reduction that fails decides the error.
    pub open spec fn spec_new(
        requester: Option<PublicIdentity>,
        responder: PublicIdentity,
        app: Seq<char>,
        module: Seq<char>,
        function: Seq<char>,
        argument: Seq<char>,
    ) -> Result<HBFI, Error> {
        if spec_requester_index(requester) is None || responder.spec_index() is None {
            Err(Error::UnindexedIdentity)
        } else if spec_index_of(app) is None || spec_index_of(module) is None || spec_index_of(
            function,
        ) is None || spec_index_of(argument) is None {
            Err(Error::UnindexedLabel)
        } else {
            Ok(
                HBFI {
                    responder_index: responder.spec_index()->Some_0,
                    requester_index: spec_requester_index(requester)->Some_0,
                    app: spec_index_of(app)->Some_0,
                    module: spec_index_of(module)->Some_0,
                    function: spec_index_of(function)->Some_0,
                    argument: spec_index_of(argument)->Some_0,
                    offset: 0,
                    window: 0,
                },
            )
        }
    }

    /// Builds the identifier of a fresh exchange, at offset and window zero,
    /// from the identities and the four labels. Without a requester the
    /// exchange is anonymous. It fails where an identity or a label cannot
    /// be reduced to a filter index.
    pub fn new(
        requester: Option<PublicIdentity>,
        responder: PublicIdentity,
        app: &str,
        module: &str,
        function: &str,
        argument: &str,
    ) -> (made: Result<HBFI, Error>)
        ensures
            made == HBFI::spec_new(requester, responder, app@, module@, function@, argument@),
    {
        let requester_index = match requester {
            Some(pid) => match pid.index() {
                Some(index) => Some(index),
                None => {
                    return Err(Error::UnindexedIdentity);
                },
            },
            None => None,
        };
        let responder_index = match responder.index() {
            Some(index) => index,
            None => {
                return Err(Error::UnindexedIdentity);
            },
        };
        match (index_of(app), index_of(module), index_of(function), index_of(argument)) {
            (Some(app), Some(module), Some(function), Some(argument)) => Ok(
                HBFI {
                    responder_index,
                    requester_index,
                    app,
                    module,
                    function,
                    argument,
                    offset: 0,
                    window: 0,
                },
            ),
            _ => Err(Error::UnindexedLabel),
        }
    }

    /// Whether two identifiers name the same logical request: all five
    /// identity and label indices agree. Offset and window only tell the
    /// chunks of one exchange apart.
    pub open spec fn same_request(self, other: HBFI) -> bool {
        &&& self.responder_index == other.responder_index
        &&& self.app == other.app
        &&& self.module == other.module
        &&& self.function == other.function
        &&& self.argument == other.argument
    }

    pub fn is_same_request(&self, other: &HBFI) -> (same: bool)
        ensures
            same == self.same_request(*other),
    {
        self.responder_index == other.responder_index && self.app == other.app && self.module
            == other.module && self.function == other.function && self.argument == other.argument
    }

    /// The same identifier addressed at another chunk of the exchange.
    pub open spec fn spec_at(self, offset: u64, window: u64) -> HBFI {
        HBFI { offset, window, ..self }
    }

    pub fn at(&self, offset: u64, window: u64) -> (moved: HBFI)
        ensures
            moved == self.spec_at(offset, window),
    {
        HBFI {
            responder_index: self.responder_index,
            requester_index: self.requester_index,
            app: self.app,
            module: self.module,
            function: self.function,
            argument: self.argument,
            offset,
            window,
        }
    }
}

} // verus!
