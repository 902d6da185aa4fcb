//! Requests, routers and the dispatch of requests by message id.
use crate::message::{Message, MessageView};
use vstd::prelude::*;

verus! {

/// A request as a router sees it.
pub trait IRquest {
    /// The message id of the request.
    spec fn spec_msg_id(&self) -> u32;

    /// The message carried by the request.
    spec fn spec_data(&self) -> MessageView;

    /// A copy of the message carried by the request.
    fn get_data(&self) -> (res: Message)
        ensures
            res@ == self.spec_data(),
    ;

    /// The message id of the request.
    fn get_msgID(&self) -> (res: u32)
        ensures
            res == self.spec_msg_id(),
    ;
}

/// The handling of one kind of request. `handler` computes the reply;
/// `pre_handler` and `post_hander` run before and after it.
pub trait IRouter<R: View>: Send + Sync {
    /// The reply that `handler` gives to a request.
    spec fn spec_handler(&self, request: R::V) -> R::V;

    fn pre_handler(&self, _request: &R) {
    }

    fn handler(&self, request: &R) -> (res: R)
        ensures
            res@ == self.spec_handler(request@),
    ;

    fn post_hander(&self, _request: &R) {
    }
}

/// A request received on a connection: one message.
#[derive(Debug)]
pub struct Request {
    pub data: Message,
}

impl View for Request {
    type V = MessageView;

    open spec fn view(&self) -> MessageView {
        self.data@
    }
}

impl Clone for Request {
    fn clone(&self) -> (res: Self)
        ensures
            res@ == self@,
    {
        Request { data: self.data.clone() }
    }
}

impl Request {
    pub fn new(data: Message) -> (res: Self)
        ensures
            res@ == data@,
    {
        Request { data }
    }
}

impl IRquest for Request {
    open spec fn spec_msg_id(&self) -> u32 {
        self@.id
    }

    open spec fn spec_data(&self) -> MessageView {
        self@
    }

    fn get_data(&self) -> (res: Message)
        ensures
            res@ == self@,
    {
        self.data.clone()
    }

    fn get_msgID(&self) -> (res: u32)
        ensures
            res == self@.id,
    {
        self.data.GetMsgId()
    }
}

/// Replies with the request itself.
pub struct PingRouter;

impl IRouter<Request> for PingRouter {
    open spec fn spec_handler(&self, request: MessageView) -> MessageView {
        request
    }

    fn handler(&self, request: &Request) -> (res: Request)
        ensures
            res@ == request@,
    {
        request.clone()
    }
}

/// Replies with the request's payload reversed.
pub struct OneRouter;

impl IRouter<Request> for OneRouter {
    open spec fn spec_handler(&self, request: MessageView) -> MessageView {
        MessageView { data: request.data.reverse(), ..request }
    }

    fn handler(&self, request: &Request) -> (res: Request)
        ensures
            res@.id == request@.id,
            res@.data_len == request@.data_len,
            res@.data.len() == request@.data.len(),
            forall|i: int|
                0 <= i < request@.data.len() ==> #[trigger] res@.data[i] == request@.data[request@.data.len()
                    - 1 - i],
    {
        let mut res = request.clone();
        res.data.reverse();
        res
    }
}

/// Replies with the request's payload reversed.
pub struct TwoRouter;

impl IRouter<Request> for TwoRouter {
    open spec fn spec_handler(&self, request: MessageView) -> MessageView {
        MessageView { data: request.data.reverse(), ..request }
    }

    fn handler(&self, request: &Request) -> (res: Request)
        ensures
            res@.id == request@.id,
            res@.data_len == request@.data_len,
            res@.data.len() == request@.data.len(),
            forall|i: int|
                0 <= i < request@.data.len() ==> #[trigger] res@.data[i] == request@.data[request@.data.len()
                    - 1 - i],
    {
        let mut res = request.clone();
        res.data.reverse();
        res
    }
}

} // verus!
