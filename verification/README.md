# chat_client

The client of a real-time chat service: members, friends and friend
requests, direct chats, servers with channels and posts, and activity
reports. The library holds what the client decides and computes, each
function with a contract that Verus proves; the program around it draws
the pages in the browser and talks to the server.

## Layout

- `src/` the verified library
  - `text.rs` decimal rendering, joining and splitting of text
  - `time.rs` timestamps with their validity, rendered and read with chrono
  - `api.rs` endpoint URLs, URL-encoded form bodies, the handling of replies
  - `auth.rs` the stored token and the bearer token of a login reply
  - `forms.rs` the form fields that each request sends
  - `routes.rs` which page each route shows, and who may see it
  - `models/` the records that the server sends and receives
  - `contexts/` the shared state of the chat, member and server views, as
    reducers with the laws they keep
  - `views.rs` the decisions of the views: selections, removals, styling,
    ordering, the icon of a new server
- `tests/` tests of the library on concrete values
- `app/` the browser program: components, storage and HTTP requests
