//! What the mails of the service say. Rendering and sending are left to
//! the mail transport.

use crate::worker::{WorkItem, WorkItemView};
use vstd::prelude::*;

verus! {

/// The template into which a [`CodeEmailContext`] is rendered.
pub const CODE_TEMPLATE: &'static str = "verification_code.html";

/// The template into which a [`Notification`] is rendered.
pub const NOTIFICATION_TEMPLATE: &'static str = "notification.html";

/// What the mail with a verification code says.
#[derive(Debug, Clone, PartialEq, Eq)]
pub struct CodeEmailContext {
    pub email: String,
    pub code: String,
    pub subject: String,
    pub text: String,
}

/// The model of a [`CodeEmailContext`].
pub struct CodeEmailContextView {
    pub email: Seq<char>,
    pub code: Seq<char>,
    pub subject: Seq<char>,
    pub text: Seq<char>,
}

impl View for CodeEmailContext {
    type V = CodeEmailContextView;

    open spec fn view(&self) -> CodeEmailContextView {
        CodeEmailContextView {
            email: self.email@,
            code: self.code@,
            subject: self.subject@,
            text: self.text@,
        }
    }
}

/// What a mail with a call to action says.
#[derive(Debug, Clone, PartialEq, Eq)]
pub struct Notification {
    pub email: String,
    pub title: String,
    pub message: String,
    pub link: String,
    pub button_name: String,
}

/// The model of a [`Notification`].
pub struct NotificationView {
    pub email: Seq<char>,
    pub title: Seq<char>,
    pub message: Seq<char>,
    pub link: Seq<char>,
    pub button_name: Seq<char>,
}

impl View for Notification {
    type V = NotificationView;

    open spec fn view(&self) -> NotificationView {
        NotificationView {
            email: self.email@,
            title: self.title@,
            message: self.message@,
            link: self.link@,
            button_name: self.button_name@,
        }
    }
}

/// The mail that carries the code for a change of password.
pub open spec fn password_code_mail(code: Seq<char>, email: Seq<char>) -> CodeEmailContextView {
    CodeEmailContextView {
        email,
        code,
        subject: "Код для изменения пароля"@,
        text: "Вы изменяете пароль на вашем аккаунте. Необходимо ввести код для подтверждения изменения"@,
    }
}

/// The mail that carries the code for a change of address.
pub open spec fn email_code_mail(code: Seq<char>, email: Seq<char>) -> CodeEmailContextView {
    CodeEmailContextView {
        email,
        code,
        subject: "Код для изменения почты"@,
        text: "Вы изменяете почту на вашем аккаунте. Необходимо ввести код для изменения почты для потверждения изменения"@,
    }
}

/// The page on which the holder of invitation `id` registers.
pub open spec fn registration_link(client_url: Seq<char>, id: Seq<char>) -> Seq<char> {
    client_url + "/auth/registration?code="@ + id
}

/// The words with which a sender invites.
pub open spec fn invitation_text(first_name: Seq<char>, last_name: Seq<char>) -> Seq<char> {
    "Вас пригласил(-а) зарегистрироваться на портал HITS "@ + first_name + " "@ + last_name
        + " в качестве пользователя. Для регистрации на сервисе перейдите по данной ссылке и заполните все поля."@
}

/// The mail that invites `email` in the name of the sender.
pub open spec fn invitation_mail(
    id: Seq<char>,
    client_url: Seq<char>,
    first_name: Seq<char>,
    last_name: Seq<char>,
    email: Seq<char>,
) -> NotificationView {
    NotificationView {
        email,
        title: "Приглашение на регистрацию"@,
        message: invitation_text(first_name, last_name),
        link: registration_link(client_url, id),
        button_name: "Зарегистрироваться"@,
    }
}

/// Writes the mail that carries the code for a change of password. It goes
/// to `email` under the subject of the context.
pub fn send_code_to_update_password(code: String, email: String) -> (mail: CodeEmailContext)
    ensures
        mail@ == password_code_mail(code@, email@),
{
    CodeEmailContext {
        email,
        code,
        subject: String::from_str("Код для изменения пароля"),
        text: String::from_str(
            "Вы изменяете пароль на вашем аккаунте. Необходимо ввести код для подтверждения изменения",
        ),
    }
}

/// Writes the mail that carries the code for a change of address. It goes
/// to `email` under the subject of the context.
pub fn send_code_to_update_email(code: String, email: String) -> (mail: CodeEmailContext)
    ensures
        mail@ == email_code_mail(code@, email@),
{
    CodeEmailContext {
        email,
        code,
        subject: String::from_str("Код для изменения почты"),
        text: String::from_str(
            "Вы изменяете почту на вашем аккаунте. Необходимо ввести код для изменения почты для потверждения изменения",
        ),
    }
}

/// Writes the mail that invites `email` to register under invitation `id`,
/// in the name of the sender. It goes to `email` under its title.
pub fn send_invitation(
    id: String,
    client_url: String,
    first_name: String,
    last_name: String,
    email: String,
) -> (mail: Notification)
    ensures
        mail@ == invitation_mail(id@, client_url@, first_name@, last_name@, email@),
{
    let mut link = client_url;
    link.append("/auth/registration?code=");
    link.append(id.as_str());
    let mut message = String::from_str("Вас пригласил(-а) зарегистрироваться на портал HITS ");
    message.append(first_name.as_str());
    message.append(" ");
    message.append(last_name.as_str());
    message.append(
        " в качестве пользователя. Для регистрации на сервисе перейдите по данной ссылке и заполните все поля.",
    );
    Notification {
        email,
        title: String::from_str("Приглашение на регистрацию"),
        message,
        link,
        button_name: String::from_str("Зарегистрироваться"),
    }
}

/// The mail that delivers a work item: the invitation that the item names,
/// to its receiver, in the name of its sender.
pub open spec fn delivery(item: WorkItemView, client_url: Seq<char>) -> NotificationView {
    invitation_mail(
        item.id,
        client_url,
        item.sender_first_name,
        item.sender_last_name,
        item.receiver,
    )
}

impl WorkItem {
    /// Writes the mail that delivers this work item.
    pub fn into_mail(self, client_url: String) -> (mail: Notification)
        ensures
            mail@ == delivery(self@, client_url@),
    {
        send_invitation(
            self.id,
            client_url,
            self.sender_first_name,
            self.sender_last_name,
            self.receiver,
        )
    }
}

} // verus!
