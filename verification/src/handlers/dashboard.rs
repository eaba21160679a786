//! The landing page.

use crate::response::{plain_text, redirect_to, Reply, ReplyView, STATUS_OK};
use crate::services::shopify::{authenticated, is_authenticated, ShopQuery};
use vstd::prelude::*;
use vstd::string::StringExecFns;

verus! {

/// The landing page's answer to a request that names `shop`, or none.
///
/// Without a shop it asks for one. A shop known to be authenticated is
/// welcomed; any other is sent to the start of the handshake.
pub open spec fn dashboard_reply(shop: Option<Seq<char>>) -> ReplyView {
    match shop {
        None => plain_text(STATUS_OK, "Please provide a shop parameter"@),
        Some(shop) => if authenticated(shop) {
            plain_text(STATUS_OK, "Welcome to your dashboard for shop: "@ + shop)
        } else {
            redirect_to("/auth?shop="@ + shop)
        },
    }
}

/// Answers a request for the landing page.
pub fn handle_dashboard(params: &ShopQuery) -> (reply: Reply)
    ensures
        reply@ == dashboard_reply(params.shop.deep_view()),
{
    match &params.shop {
        Some(shop) => {
            if is_authenticated(shop.as_str()) {
                let mut body = "Welcome to your dashboard for shop: ".to_owned();
                body.append(shop.as_str());
                Reply::text(STATUS_OK, body)
            } else {
                let mut location = "/auth?shop=".to_owned();
                location.append(shop.as_str());
                Reply::redirect(location)
            }
        },
        None => Reply::text(STATUS_OK, "Please provide a shop parameter".to_owned()),
    }
}

} // verus!
