# camera_trace

A tracing camera for the browser: a reference photo is laid over the live camera
view, aligned by dragging and with sliders, locked in place and traced onto paper
while watching the phone screen.

The decisions of the page are a verified library (`src/`):

- `project` — a reference photo and its alignment, and the rule that a locked
  position refuses every change of placement while opacity stays editable;
- `history` — the dozen most recent projects, newest first;
- `session` — the state of a session and, in `Session::handle`, how each user or
  browser event changes it and which effects (saving, deleting, remembering a
  dismissal, focus) the page must carry out;
- `screen` — which parts of the page are shown and usable;
- `onboarding` — when the first-visit introduction appears;
- `camera` — what the user is told when the camera cannot be started;
- `laws` — properties proved of every session and every event.

Numbers are kept in the units of the controls: opacity and scale in percent,
rotation in whole degrees, the offset in CSS pixels, times in milliseconds.

`app/` is the Yew page around the library: camera and storage access, rendering,
and the JSON form of saved projects. The page expects the image compressor
`image-import.js` to be served next to it.
