# vkfft_scheduler

Host-side scheduling of GPU Fourier transforms, written in Verus.

Given the length of an axis, a precision and the limits of a device, the library chooses

- the radix stages and registers of one transform,
- the uploads that an axis too long for shared memory is split over,
- the workgroup shape of every upload,
- the lanes and registers of Rader primes, convolved directly or by transforms, nested ones
  included, and
- the padded length of Bluestein convolutions.

Every planner returns exactly what a spec function of its arguments says, errors included.
Modules whose names end in `_laws` state what holds of all schedules: stages and splits
multiply back to the length, lanes fit the workgroup, every smooth length is planned.

One step of the stage search takes a root in double precision. `src/double_root.rs` computes
it in whole numbers, for a power that is rounded correctly. That this is what `f64::powf`
returns is no theorem: it rests on the derivation given there and on the tests that compare
the two.

- `src/` is the library; `src/lib.rs` lists its modules by subject.
- `tests/` runs it on concrete devices and lengths.
