//! `GET /logout`: ends the session.

use crate::handlers::{HttpResponse, HttpResponseView};
use crate::identity::{forgotten, Identity};
use vstd::prelude::*;

verus! {

/// `GET /logout`: clears the identity and redirects home.
pub fn logout(id: &mut Identity) -> (response: HttpResponse)
    ensures
        final(id)@ == forgotten(),
        response@ == HttpResponseView::redirect("/"@),
{
    id.forget();
    HttpResponse::redirect("/")
}

} // verus!
