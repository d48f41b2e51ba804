# blog

The back end of a small blog: user registration with emailed verification
codes, login with RS256 JSON Web Tokens, and image captchas.

- `src/` is the library, verified with Verus. It holds every rule and
  decision: password, username and email rules, the validation of request
  bodies, the Argon2 hashing of passwords, token claims and signing, captcha
  generation and answer hashing, the rate limit on verification mails, the
  mapping of errors to HTTP answers, and the step functions of the
  registration, login and verification-mail conversations.
- `app/` is the HTTP server around it (axum, sqlx, lettre): it reads the
  settings, talks to PostgreSQL and the mail server, and runs the step
  functions, handing each answer back as the next event.
- `tests/` exercises the library on concrete values.

Instants are counted in microseconds since the Unix epoch, the precision
PostgreSQL keeps.
