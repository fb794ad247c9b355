# OxiDS

A driver and client for capture cards for the 3DS (Loopy's card for the "Old" 3DS), with its
logic verified by [Verus](https://github.com/verus-lang/verus).

- `src/` is the verified library.
  - `device`: finding the card on the bus, choosing its endpoint, asking it for a frame
  - `setup`: the commands that set the card up, as a state machine over the replies
  - `transfer`: reading a frame and splitting it into a picture and an audio packet
  - `video`: turning pictures upright and painting them on one or two windows
  - `audio`: decoding samples and finding where the audio of a packet ends
  - `counter`: polls per second, and when to pause
  - `window`: window sizes and hotkeys
  - `constants`: the numbers of the device and of the program
- `app/` is the program: USB transfers, threads, speakers, windows and the command line.
- `tests/` runs the library on concrete values.

Two things are trusted rather than proved: the value of `rusb::request_type` for an outgoing
vendor request to the device, and that the system clock can be read (nothing is claimed of what
it shows).

## Hotkeys

- `Enter`: fullscreen
- `Escape`: leave fullscreen
- `Backspace`: back to the size at which the window was opened
