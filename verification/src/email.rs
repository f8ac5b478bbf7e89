use vstd::prelude::*;

verus! {

/// The confirmation link a new subscriber receives by email.
pub struct ConfirmationLink(pub String);

/// Builds the confirmation link that embeds a subscription token:
/// `<base_url>/subscriptions/confirm?subscription_token=<token>`.
pub fn get_confirmation_link(base_url: &str, subscription_token: &str) -> (r: ConfirmationLink)
    ensures
        r.0@ == base_url@ + "/subscriptions/confirm?subscription_token="@ + subscription_token@,
{
    let mut link = String::from_str(base_url);
    link.append("/subscriptions/confirm?subscription_token=");
    link.append(subscription_token);
    ConfirmationLink(link)
}

/// The fixed subject line of every confirmation email.
pub fn confirmation_email_subject() -> (r: &'static str)
    ensures
        r@ == "Kither's newsletter email confimation"@,
{
    "Kither's newsletter email confimation"
}

/// The fixed HTML body of a confirmation email, around its confirmation
/// link.
pub fn confirmation_email_html(confirmation_link: &ConfirmationLink) -> (r: String)
    ensures
        r@ == "Welcome to our newsletter!<br />Click <a href=\""@ + confirmation_link.0@
            + "\">here</a> to confirm your subscription."@,
{
    let mut body = String::from_str("Welcome to our newsletter!<br />Click <a href=\"");
    body.append(confirmation_link.0.as_str());
    body.append("\">here</a> to confirm your subscription.");
    body
}

} // verus!
