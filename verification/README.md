# todo_client

The logic of a browser client for a todo service, verified with Verus.

`src/` is the library:

- `api` – the backend's address, its endpoints, the request model, and the
  status codes the client tests for.
- `session` – the effects a page asks its host to carry out (requests,
  cookies, the session token, navigation) and what they do to the session.
- `login`, `account`, `todos`, `modal` – each page as a state machine from
  an event to the effects or the next state.
- `pages` – the routed pages and the navigation bar.
- `decimal`, `datetime` – the numbers and times the pages show.
- `channel` – the handle through which a page feeds its background worker.

`app/` is the Dioxus front end that renders the pages, performs requests
with reqwest, keeps cookies, and runs the workers' loops.
