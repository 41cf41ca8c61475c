# aruco

Detection of 4x4 square fiducial markers in images.

- `src/` is the verified library (Verus): grey images as plain values (`grid.rs`),
  adaptive thresholding and hole borders as marker candidates (`contours.rs`), the trusted
  wrappers of the `image` operations it uses (`imageops.rs`), reading the 16-bit code of a
  6x6 marker grid (`code.rs`), the code dictionary (`dictionary.rs`), decoding a marker in
  its four orientations (`marker.rs`) and the proofs that the four orientations compose as
  quarter turns do (`orientation.rs`).
- `app/` is the program around it: image loading and saving, the floating-point steps of
  detection (polygon approximation, convexity and edge-length checks, perspective warp) and
  the debug drawings.
- `tests/` runs the library on concrete images.
