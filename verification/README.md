# deploy

Start-up of a managed remote-support client: it checks the licence of the
device, fixes the servers that the licence names, keeps the password of the day
in force, and stops the client when there is no licence.

The library under `src/` decides and is verified with Verus. It takes what came
back from outside as plain values and returns the steps to take.

- `text`: decimal numbers, trailing characters and lines of a text.
- `calendar`: the Gregorian calendar.
- `clock`: the readings of the clock and how a local time is written (chrono).
- `settings`: named settings and what writing them leaves in a store.
- `license`: the answer of the licensing API, the record of the last good one,
  and what follows from both.
- `password`: the password of the day and its change with the day.
- `alert`: alerts shown by the desktop.
- `action`, `startup`: the steps of a start-up.
- `laws`: what holds of the library as a whole.

`app/` takes the steps: HTTP, processes, threads, and the client's own
configuration through the `Host` trait.
