# act4g

The verified core of act4g, an Android client for GitHub notifications.

- `src/` is the library, proved with Verus:
  - `text` — string operations (search, replace, prefixes, decimal numbers)
    stated over `Seq<char>`;
  - `api` — the GitHub data types, the rules that turn API addresses into
    web pages, the construction of every HTTP request, pagination, proxy
    selection and the reading of a notification's detail document;
  - `credentials` — the saved-session outcomes;
  - `screens` — the screen state machine (sign-in flow, inbox, open
    notification) and what each screen shows.
- `app/` is the Android application around it: gpui views, HTTP with
  reqwest, JSON decoding of the API answers, the keystore through JNI. It
  sends the requests the library builds and hands each answer back to the
  state machine.
- `tests/` exercises the library on concrete values.
