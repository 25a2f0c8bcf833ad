use crud_with_sea_orm::hello_world::{echo, hello, manual_hello, AppState};
use crud_with_sea_orm::http::{Body, Response, Status};

#[test]
fn hello_greets_with_the_application_name() {
    let data = AppState { app_name: String::from("Actix Web") };
    assert_eq!(hello(&data), "Hello Actix Web!");
}

#[test]
fn echo_sends_the_body_back() {
    assert_eq!(
        echo("ping\n".to_string()),
        Response { status: Status::Success, body: Body::Text("ping\n".to_string()) }
    );
    assert_eq!(
        echo(String::new()),
        Response { status: Status::Success, body: Body::Text(String::new()) }
    );
}

#[test]
fn manual_hello_says_hey_there() {
    assert_eq!(
        manual_hello(),
        Response { status: Status::Success, body: Body::Text("Hey there!".to_string()) }
    );
}
