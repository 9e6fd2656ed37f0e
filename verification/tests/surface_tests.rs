use maxobot::adapter::{AdapterContext, ExternalIdentifiers};
use maxobot::credentials::{BotCredentials, CredentialsValidationError};
use maxobot::new_message_body::NewMessageBody;
use maxobot::requests::CallbackAnswerRequest;

#[test]
fn context_takes_explicit_external_ids() {
    let ids = ExternalIdentifiers {
        chat_id: Some("1".to_owned()),
        user_id: None,
        message_id: Some("m".to_owned()),
        callback_id: None,
        update_type: Some("message_created".to_owned()),
    };
    let mut context = AdapterContext::default();
    context.insert_metadata("k".to_owned(), "v".to_owned());
    let trace_id = context.trace_id;
    let context = context.with_external_ids(ids.clone());
    assert_eq!(context.external_ids, ids);
    assert_eq!(context.channel, "max");
    assert_eq!(context.trace_id, trace_id);
    assert_eq!(context.metadata, vec![("k".to_owned(), "v".to_owned())]);
}

#[test]
fn token_and_secret_validators() {
    assert_eq!(BotCredentials::validate_token(" \t"), Err(CredentialsValidationError::EmptyToken));
    assert_eq!(BotCredentials::validate_token("abc"), Ok(()));
    assert_eq!(BotCredentials::validate_webhook_secret(None), Ok(()));
    assert_eq!(
        BotCredentials::validate_webhook_secret(Some("abc")),
        Err(CredentialsValidationError::InvalidWebhookSecretLength { length: 3 })
    );
    assert_eq!(
        BotCredentials::validate_webhook_secret(Some("abc$def")),
        Err(CredentialsValidationError::InvalidWebhookSecretCharacter { index: 3, character: '$' })
    );
    assert_eq!(BotCredentials::validate_webhook_secret(Some("abc_def-1")), Ok(()));
}

#[test]
fn credentials_take_a_valid_webhook_secret() {
    let credentials = BotCredentials::new("token").ok().expect("valid token");
    let with_secret = credentials.clone().with_webhook_secret("secret_1").ok().expect("valid secret");
    assert_eq!(with_secret.token(), "token");
    assert_eq!(with_secret.webhook_secret(), Some("secret_1"));
    assert_eq!(
        credentials.with_webhook_secret("bad secret").err().expect("space refused"),
        CredentialsValidationError::InvalidWebhookSecretCharacter { index: 3, character: ' ' }
    );
}

#[test]
fn callback_answer_takes_a_message() {
    let body = NewMessageBody::new().with_text("done".to_owned());
    let request = CallbackAnswerRequest::new()
        .with_notification("ok".to_owned())
        .with_message(body.clone());
    assert_eq!(request.message, Some(body));
    assert_eq!(request.notification, Some("ok".to_owned()));
}
