//! The transport-facing side of delivery: the client's configuration and the
//! exact request handed to the mail API for one recipient. Performing the
//! HTTP call is the unverified transport's job; everything the call carries
//! is assembled and pinned down here.

use crate::domain::SubscriberEmail;
use crate::secret::{secret_str, SecretString};
use vstd::prelude::*;
use vstd::string::StringExecFns;

verus! {

/// The abstract value of a [`SendEmailRequest`].
pub struct SendEmailRequestView {
    pub from: Seq<char>,
    pub to: Seq<char>,
    pub subject: Seq<char>,
    pub text_body: Seq<char>,
    pub html_body: Seq<char>,
}

/// One fully assembled mail-API call: sender, recipient, subject, and the
/// two bodies.
pub struct SendEmailRequest {
    pub from: String,
    pub to: String,
    pub subject: String,
    pub text_body: String,
    pub html_body: String,
}

impl View for SendEmailRequest {
    type V = SendEmailRequestView;

    open spec fn view(&self) -> SendEmailRequestView {
        SendEmailRequestView {
            from: self.from@,
            to: self.to@,
            subject: self.subject@,
            text_body: self.text_body@,
            html_body: self.html_body@,
        }
    }
}

impl DeepView for SendEmailRequest {
    type V = SendEmailRequestView;

    open spec fn deep_view(&self) -> SendEmailRequestView {
        self.view()
    }
}

/// The mail client's configuration: where the API lives, who the mail is
/// from, and the token that authorizes calls.
pub struct EmailClient {
    pub base_url: String,
    pub sender: SubscriberEmail,
    pub authorization_token: SecretString,
}

impl EmailClient {
    /// A client posting to `base_url` as `sender`.
    pub fn new(base_url: String, sender: SubscriberEmail, authorization_token: SecretString) -> (r:
        EmailClient)
        ensures
            r.base_url@ == base_url@,
            r.sender@ == sender@,
            secret_str(r.authorization_token) == secret_str(authorization_token),
    {
        EmailClient { base_url, sender, authorization_token }
    }

    /// The endpoint every send is posted to.
    pub fn email_url(&self) -> (r: String)
        ensures
            r@ == self.base_url@ + "/email"@,
    {
        let mut url = self.base_url.clone();
        url.append("/email");
        url
    }

    /// Assembles the request for one recipient: from this client's sender,
    /// to the given address, carrying the issue's subject and bodies.
    pub fn build_send_request(
        &self,
        recipient: &SubscriberEmail,
        subject: &str,
        html_content: &str,
        text_content: &str,
    ) -> (r: SendEmailRequest)
        ensures
            r@.from == self.sender@,
            r@.to == recipient@,
            r@.subject == subject@,
            r@.html_body == html_content@,
            r@.text_body == text_content@,
    {
        SendEmailRequest {
            from: self.sender.as_ref().to_owned(),
            to: recipient.as_ref().to_owned(),
            subject: subject.to_owned(),
            text_body: text_content.to_owned(),
            html_body: html_content.to_owned(),
        }
    }
}

} // verus!
