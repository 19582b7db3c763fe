# logic_quiz

A twenty-question quiz on logic gates, adders and assembly, meant to run in a
browser page. The verified library (`src/`) holds its rules:

- `browser`: how the page gets hold of its window (through web-sys), and
  the error it fails with when the code does not run in one;
- `content`: the questions, the labels of their four choices and the answer key;
- `quiz`: the sitting as a state machine driven by clicks on "next" (scoring,
  which screen comes next, whether the button stays), with its laws;
- `counter`: the visit counter kept in the browser's storage; the result is
  green only when the count read back is twenty, which for a sitting means
  that storage held no count (or 0) when it started, so a sitting started over
  ends blue;
- `display`: the body's colour classes, the sentence that gives the mark and
  the watch that turns the page red when that sentence is edited;
- `decimal`: reading and writing `usize` values in base ten, as the counter and
  the mark are stored.

`app/` is the page itself (wasm-bindgen and web-sys): it builds the elements,
listens to the clicks and to the tab losing focus, reads and writes storage,
and carries out what the library decides.
