# mail_client

The logic of a GTK4 email client, verified with Verus.

- `src/email.rs`: the parts of an email address, the user name that an
  autoconfig `username` template names, and the SASL `PLAIN` response.
- `src/autoconfig.rs`: the autoconfig file model, the two addresses where it
  is looked up, the choice of the `SSL` incoming server and the reading of its
  port.
- `src/login.rs`: the login page's decisions and the login as a state machine
  (state and event to next state and action), with its laws.
- `src/views.rs`: the window page switch, folder and mailbox entries, and the
  mailbox list.
- `app/`: the GTK/relm4 user interface and the I/O (HTTP, XML parsing with
  serde, IMAP) that drives the login state machine.
