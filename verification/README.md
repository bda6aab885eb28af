# rustboy

A Game Boy emulator core written in Verus. The library (`src/`) holds the
processor (registers, decoder and instruction semantics), the memory bus with
its cartridge bank controllers, the pixel pipeline and a background tile
debugger. Each public function states its behaviour in `requires` / `ensures`
over a mathematical model of the machine, and the `law_*` proof functions state
what holds across calls (a read after a write, a push then a pop, and so on).

`app/` is the program around it: argument handling, reading the ROM files,
logging and the window that shows the screen.

Verify with Verus; the tests under `tests/` run the library on concrete
programs and cartridges.
