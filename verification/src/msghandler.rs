//! The table of routers, one per message id.
use crate::message::Message;
use crate::request::{IRouter, IRquest, Request};
use std::collections::HashMap;
use std::sync::Arc;
use vstd::prelude::*;

verus! {

/// The handling of requests by message id, in the abstract.
pub trait IMsgHandle {
    /// The kind of request handled.
    type Req: View;

    /// Handles a request at once.
    fn DoMsgHandler(req: &Self::Req);

    /// Registers the router of a message id.
    fn AddRouter(msgId: u32, router: Box<dyn IRouter<Self::Req>>);
}

/// The routers of a server, keyed by the message id that each handles.
#[verifier::reject_recursive_types(R)]
pub struct MsgHandle<R: View> {
    Apis: HashMap<u32, Arc<Box<dyn IRouter<R>>>>,
}

impl<R: View> MsgHandle<R> {
    /// Whether a router is registered for `id`.
    pub closed spec fn has_route(&self, id: u32) -> bool {
        self.Apis@.contains_key(id)
    }

    /// The router registered for `id`.
    pub closed spec fn route(&self, id: u32) -> Arc<Box<dyn IRouter<R>>> {
        self.Apis@[id]
    }

    /// A table with no router.
    pub fn new() -> (res: Self)
        ensures
            forall|id: u32| !res.has_route(id),
    {
        MsgHandle { Apis: HashMap::new() }
    }

    /// Whether a router is registered for `msgID`.
    pub fn has_router(&self, msgID: u32) -> (res: bool)
        ensures
            res == self.has_route(msgID),
    {
        self.Apis.contains_key(&msgID)
    }

    /// Handles a request now: the router registered for its message id
    /// computes the reply; a request with no router is answered with a copy of itself.
    pub fn DoMsgHandler(&self, request: &R) -> (res: Option<R>)
        where
            R: IRquest + Clone,
        ensures
            if self.has_route(request.spec_msg_id()) {
                res matches Some(r) && r@ == self.route(request.spec_msg_id()).spec_handler(request@)
            } else {
                res matches Some(r) && cloned(*request, r)
            },
    {
        match self.Apis.get(&request.get_msgID()) {
            Some(handler) => {
                handler.pre_handler(request);
                let r = handler.handler(request);
                handler.post_hander(request);
                Some(r)
            },
            None => Some(request.clone()),
        }
    }

    /// Registers the router of a message id. Registering a second router
    /// for the same id is a programming error, which `requires` rules out.
    pub fn AddRouter(&mut self, msgID: u32, router: Box<dyn IRouter<R>>)
        requires
            !old(self).has_route(msgID),
        ensures
            final(self).has_route(msgID),
            *final(self).route(msgID) == router,
            forall|id: u32|
                id != msgID ==> (#[trigger] final(self).has_route(id) == old(self).has_route(id)
                    && (old(self).has_route(id) ==> final(self).route(id) == old(self).route(id))),
    {
        let ghost g = router;
        let a = Arc::new(router);
        self.Apis.insert(msgID, a);
        assert(*self.route(msgID) == g);
    }
}

/// The reader's work for one received message: the message is handled as a
/// request, and the reply's message is what goes back to the peer.
pub fn reply_for(router: &MsgHandle<Request>, msg: Message) -> (reply: Option<Message>)
    ensures
        if router.has_route(msg@.id) {
            reply matches Some(r) && r@ == router.route(msg@.id).spec_handler(msg@)
        } else {
            reply matches Some(r) && r@ == msg@
        },
{
    let request = Request::new(msg);
    match router.DoMsgHandler(&request) {
        Some(res) => Some(res.data),
        None => None,
    }
}

} // verus!
