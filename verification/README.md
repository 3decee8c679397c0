# rustforum

A question-and-answer forum service: users sign up and log in with JSON Web
Tokens, ask and answer questions, and like or dislike questions.

- `src/` is the verified library (Verus). `session.rs` holds the decision
  logic of every endpoint as a step function: given the request, the claims
  of its token and the database replies so far, it either asks the database
  for something, answers, or gives up. `plan.rs` states what each step must
  be, `laws.rs` proves the properties that the service keeps (only owners
  edit or delete, rejected tokens never reach the database, issued tokens are
  accepted, ...). `model.rs` describes the database as four tables of rows
  and what each request does to them; `db_laws.rs` proves, over runs of
  sessions against that model, the properties that span requests (signup
  keeps accounts unique, a second delete is refused, an update repeated
  changes nothing, login after signup gives the signup token, ...). `claims.rs` signs and checks tokens with `jsonwebtoken`,
  `number.rs` reads ids, `reply.rs` holds the answers and their messages.
- `app/` is the HTTP service (Rocket) and the PostgreSQL access (Diesel): it
  runs each request's session, carrying out its database requests and
  rendering its replies as JSON.
- `tests/` runs the library on concrete requests and replies.
