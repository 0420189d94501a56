# templo

The rules of the Templo Sagrado attendance platform, where clients buy
minutes and talk with clerks (tarot readers) by chat, call or mail, written
in Verus and proved against their contracts.

- `src/` is the library. Each module states in `requires`/`ensures` what its
  functions compute, over spec functions on sequences and integers:
  - `attend`: the attendance websocket's messages and the commands they
    lead to; laws on how requests for a chat or call ("intends") move.
  - `auth`, `accounts`, `dates`: logins, registrations, clerk forms,
    passwords and birthdates.
  - `sales`, `stats`: sale statuses and the periods the sales charts query.
  - `sitemap`, `slug`, `mail`, `logs`, `uploads`, `pages`, `products`,
    `clerks`, `chat`, `status`: what the server writes and stores; `mail`
    also renders the notice templates with Handlebars.
  - `text`, `numbers`, `secrets`: text splitting, integer reading and
    writing as `str::parse`/`to_string` do, SHA-512 digests and random
    tokens.
- `tests/` runs the library on concrete values.
- `app/` is the web server around it (Rocket, Diesel, websockets, SMTP):
  it reads requests, template files and the database, calls the library
  and writes back. Balances and prices are floating point and stay there.
  It carries the routes that read or change the platform's data; the
  paginated table listings of the administration (served through the
  rdatatables crate) are not part of it.
