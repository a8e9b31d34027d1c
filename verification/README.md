# utalk_bot

An attendance bot for uTalk (Umbler) chats: it answers clients through a
language model (DeepSeek, with Gemini and its tool calls as an
alternative), walks them through a scripted sales conversation, and hands
chats over to the next online attendant of a rotation.

- `src/` is the library, verified with Verus: reading the webhook payload
  and deciding whether to answer, the scripted stages, the handling of a
  message as a state machine (`flow`), the Gemini request as a state
  machine (`gemini`), the prompts and the reading of the models' answers,
  the uTalk request bodies and answers, sessions and administrators, and
  the text and JSON helpers they rest on.
- `app/` is the server around it: the HTTP routes (axum), the SQLite store
  (rusqlite), the calls to uTalk and the models (reqwest), and the loops
  that perform the actions the state machines name.
- `tests/` exercises the library on concrete values.
